//! The state engine of a menu-bar clock: which time zone is selected, what the
//! tray menu holds, what the tray title reads, and how menu clicks change them.

pub mod clock;
pub mod config;
pub mod menu;
pub mod registry;
pub mod text;
pub mod ticker;
pub mod tray;
pub mod update;

pub use clock::{Instant, LocalTime};
pub use config::{
    clear_config_cache, get_config, get_config_content, get_config_content_by_app,
    get_config_from_file, load_config, set_config_content, Config, ConfigStore, StorageRead,
    StoreError,
};
pub use menu::{create_menu, ControlKind, MenuItem, MenuState};
pub use registry::Registry;
pub use ticker::{get_time_zone, update_time_zone};
pub use tray::{
    complete_selection, create_tray, on_menu_event, on_tray_icon_event, ClickKind, Refresh,
    TrayAction, TraySetup,
};
pub use update::{get_update_result, UpdateResult};
