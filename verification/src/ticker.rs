//! The clock ticker: what the tray title reads at each tick.

use vstd::prelude::*;
use crate::clock::{
    civil_time, format_title, is_title, local_seconds, reading_or_utc, title_text,
    title_text_is_title, utc_time, wall_clock_valid, Instant,
};
use crate::config::{outcome_view, Config, StoreError, StoreErrorView};
use crate::registry::{valid_selection, Registry};
use crate::text::opt_text;

verus! {

/// The zone whose time is shown while no valid zone is selected.
pub const DEFAULT_ZONE: &'static str = "UTC";

/// The seconds between two ticks.
pub const TICK_INTERVAL_SECONDS: u64 = 2;

/// The selection that a load of the configuration stands for: a failed load
/// selects nothing.
pub open spec fn selection_of(config: Result<Option<Seq<char>>, StoreErrorView>) -> Option<
    Seq<char>,
> {
    match config {
        Ok(selected) => selected,
        Err(_) => None,
    }
}

/// The seconds to lay out for a selection at an instant: those of the selected
/// zone where the selection is valid, those of UTC otherwise.
pub open spec fn shown_seconds(
    registry: Seq<Seq<char>>,
    selected: Option<Seq<char>>,
    unix_seconds: int,
) -> int {
    match valid_selection(registry, selected) {
        Some(zone) => local_seconds(zone, unix_seconds),
        None => unix_seconds,
    }
}

/// The tray title for a selection at an instant.
pub open spec fn shown_title(
    registry: Seq<Seq<char>>,
    selected: Option<Seq<char>>,
    unix_seconds: int,
) -> Seq<char> {
    title_text(civil_time(shown_seconds(registry, selected, unix_seconds)))
}

/// The zone to show: the configured one where the configuration was loaded
/// and names a zone of the registry, and `None`, for the default zone, in
/// every other case.
pub fn get_time_zone(registry: &Registry, config: &Result<Config, StoreError>) -> (zone: Option<
    String,
>)
    ensures
        opt_text(zone) == valid_selection(registry@, selection_of(outcome_view(*config))),
{
    match config {
        Ok(loaded) => match &loaded.time_zone {
            Some(id) => {
                if registry.is_valid(id.as_str()) {
                    Some(id.clone())
                } else {
                    None
                }
            },
            None => None,
        },
        Err(_) => None,
    }
}

/// The tray title for a selection at the instant `at`.
pub fn title_for(registry: &Registry, selected: &Option<String>, at: Instant) -> (title: String)
    ensures
        wall_clock_valid(civil_time(shown_seconds(registry@, opt_text(*selected), at@))),
        title@ == shown_title(registry@, opt_text(*selected), at@),
        is_title(title@),
{
    let time = match selected {
        Some(id) => {
            if registry.is_valid(id.as_str()) {
                reading_or_utc(id.as_str(), at)
            } else {
                utc_time(at)
            }
        },
        None => utc_time(at),
    };
    format_title(&time)
}

/// One tick: the title that the tray is to show at the instant `at`, given
/// what the load of the configuration brought. It always is a title, of a
/// reading that is a date and a time of day; where nothing valid is selected
/// it reads the time of the default zone.
pub fn update_time_zone(registry: &Registry, config: &Result<Config, StoreError>, at: Instant) -> (title:
    String)
    ensures
        wall_clock_valid(
            civil_time(shown_seconds(registry@, selection_of(outcome_view(*config)), at@)),
        ),
        title@ == shown_title(registry@, selection_of(outcome_view(*config)), at@),
        is_title(title@),
{
    let zone = get_time_zone(registry, config);
    let title = title_for(registry, &zone, at);
    proof {
        let selected = selection_of(outcome_view(*config));
        assert(valid_selection(registry@, valid_selection(registry@, selected)) == valid_selection(
            registry@,
            selected,
        ));
    }
    title
}

/// The ticker does not stumble over a selection that the registry does not
/// know, nor over a configuration that could not be loaded: in both cases the
/// title is the one of the default zone, as if nothing were selected.
pub proof fn ticker_falls_back(
    registry: Seq<Seq<char>>,
    config: Result<Option<Seq<char>>, StoreErrorView>,
    unix_seconds: int,
)
    requires
        config matches Ok(Some(id)) ==> !registry.contains(id),
    ensures
        shown_title(registry, selection_of(config), unix_seconds) == title_text(
            civil_time(unix_seconds),
        ),
        shown_title(registry, selection_of(config), unix_seconds) == shown_title(
            registry,
            None,
            unix_seconds,
        ),
        wall_clock_valid(civil_time(unix_seconds)) ==> is_title(
            shown_title(registry, selection_of(config), unix_seconds),
        ),
{
    if wall_clock_valid(civil_time(unix_seconds)) {
        title_text_is_title(civil_time(unix_seconds));
    }
}

} // verus!
