//! When the materialized sources have to be built again.
//!
//! A point in time is a number of nanoseconds since the Unix epoch, and
//! `None` where the file's modification time could not be read.

use vstd::prelude::*;
use crate::source::Source;

verus! {

/// Some declaration among `sources` is not reproducible.
pub open spec fn any_unreproducible(sources: Seq<Source>) -> bool {
    exists|i: int| 0 <= i < sources.len() && !(#[trigger] sources[i])@.is_reproducible()
}

/// The time that stands for the output link: its own, or the epoch where
/// it has none.
pub open spec fn link_time(link_modified: Option<i128>) -> int {
    match link_modified {
        Some(t) => t as int,
        None => 0,
    }
}

/// The time that stands for the configuration: its own, or the present
/// moment where it has none.
pub open spec fn config_time(config_modified: Option<i128>, now: i128) -> int {
    match config_modified {
        Some(t) => t as int,
        None => now as int,
    }
}

/// The output link is strictly older than the configuration.
pub open spec fn is_outdated(
    link_modified: Option<i128>,
    config_modified: Option<i128>,
    now: i128,
) -> bool {
    link_time(link_modified) < config_time(config_modified, now)
}

/// The materialized sources cannot be trusted: a declaration is not
/// reproducible, or the output link is outdated.
pub open spec fn is_stale(
    sources: Seq<Source>,
    link_modified: Option<i128>,
    config_modified: Option<i128>,
    now: i128,
) -> bool {
    any_unreproducible(sources) || is_outdated(link_modified, config_modified, now)
}

/// Whether some declaration among `sources` is not reproducible.
pub fn has_nix_sources(sources: &[Source]) -> (found: bool)
    ensures
        found == any_unreproducible(sources@),
{
    let mut i: usize = 0;
    while i < sources.len()
        invariant
            i <= sources.len(),
            forall|j: int| 0 <= j < i ==> (#[trigger] sources@[j])@.is_reproducible(),
        decreases sources.len() - i,
    {
        if !sources[i].is_reproducible() {
            return true;
        }
        i += 1;
    }
    false
}

/// Whether the output link, last modified at `link_modified`, is strictly
/// older than the configuration, last modified at `config_modified`. A
/// link without a time counts as made at the epoch, a configuration without
/// one as changed at `now`.
pub fn outdated(link_modified: Option<i128>, config_modified: Option<i128>, now: i128) -> (stale:
    bool)
    ensures
        stale == is_outdated(link_modified, config_modified, now),
{
    let link: i128 = match link_modified {
        Some(t) => t,
        None => 0,
    };
    let config: i128 = match config_modified {
        Some(t) => t,
        None => now,
    };
    link < config
}

/// Whether the sources have to be fetched before the output is used.
pub fn needs_fetch(
    sources: &[Source],
    link_modified: Option<i128>,
    config_modified: Option<i128>,
    now: i128,
) -> (stale: bool)
    ensures
        stale == is_stale(sources@, link_modified, config_modified, now),
{
    has_nix_sources(sources) || outdated(link_modified, config_modified, now)
}

/// With reproducible declarations only, an output link that is strictly
/// newer than the configuration is not stale, and one that the
/// configuration has overtaken is.
pub proof fn lemma_staleness_follows_the_times(
    sources: Seq<Source>,
    link: i128,
    config: i128,
    now: i128,
)
    requires
        !any_unreproducible(sources),
    ensures
        link > config ==> !is_stale(sources, Some(link), Some(config), now),
        link == config ==> !is_stale(sources, Some(link), Some(config), now),
        config > link ==> is_stale(sources, Some(link), Some(config), now),
{
}

/// Once stale by the times, the output stays stale however far the
/// configuration's time advances.
pub proof fn lemma_staleness_is_monotonic(
    sources: Seq<Source>,
    link_modified: Option<i128>,
    config: i128,
    later: i128,
    now: i128,
)
    requires
        config <= later,
        is_stale(sources, link_modified, Some(config), now),
    ensures
        is_stale(sources, link_modified, Some(later), now),
{
}

/// A declaration that is not reproducible makes the output stale whatever
/// the times are.
pub proof fn lemma_unreproducible_source_forces_fetch(
    sources: Seq<Source>,
    at: int,
    link_modified: Option<i128>,
    config_modified: Option<i128>,
    now: i128,
)
    requires
        0 <= at < sources.len(),
        !sources[at]@.is_reproducible(),
    ensures
        is_stale(sources, link_modified, config_modified, now),
{
}

/// Where a time is missing, the output is fetched again rather than
/// trusted: a link without a time is stale against any configuration
/// changed after the epoch, and a configuration without a time makes any
/// link from before `now` stale.
pub proof fn lemma_missing_times_favor_fetching(
    sources: Seq<Source>,
    link: i128,
    config: i128,
    now: i128,
)
    ensures
        config > 0 ==> is_stale(sources, None, Some(config), now),
        link < now ==> is_stale(sources, Some(link), None, now),
{
}

} // verus!
