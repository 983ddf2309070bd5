//! Time-boxed refresh caches for autocomplete: a snapshot of game titles
//! backed by storage, and a snapshot of the external service's app list.
//!
//! Reads never block on a reload. A caller that may refresh runs a small
//! protocol: ask `needs_refresh` with the current clock reading; only when
//! it answers true, perform the reload at its edge and hand the outcome to
//! `force_update`. Mutation paths that must be visible at once skip the
//! question and call `force_update` directly. A failed reload leaves the
//! previous snapshot in place, so the next round retries.

use vstd::prelude::*;

verus! {

use crate::records::StorageError;
use crate::steam::App;

/// Seconds elapsed between the refresh stamp `last` and the clock reading
/// `now`; a clock that moved backwards counts as no time passed.
pub open spec fn spec_elapsed(last: u64, now: u64) -> int {
    if now >= last {
        now - last
    } else {
        0
    }
}

/// A snapshot of all game titles, reloaded from storage at most once per
/// refresh interval unless a mutation forces it.
pub struct GameTitleCache {
    refresh_interval: u64,
    last_refresh: u64,
    cache: Vec<String>,
}

impl GameTitleCache {
    /// Seconds the snapshot may age before a reload is wanted.
    pub closed spec fn spec_interval(&self) -> u64 {
        self.refresh_interval
    }

    /// Clock reading stamped by the last applied reload.
    pub closed spec fn spec_last_refresh(&self) -> u64 {
        self.last_refresh
    }

    /// The current snapshot.
    pub closed spec fn spec_titles(&self) -> Seq<String> {
        self.cache@
    }

    /// A reload is wanted when the snapshot has outlived the refresh
    /// interval or is empty.
    pub open spec fn spec_needs_refresh(&self, now: u64) -> bool {
        spec_elapsed(self.spec_last_refresh(), now) > self.spec_interval()
            || self.spec_titles().len() == 0
    }

    /// How an applied reload rewrites the state: a successful load replaces
    /// the whole snapshot and stamps `now`; a failed load changes nothing.
    pub open spec fn spec_refresh_applied(
        pre: Self,
        post: Self,
        now: u64,
        loaded: Result<Vec<String>, StorageError>,
    ) -> bool {
        match loaded {
            Ok(titles) => {
                &&& post.spec_interval() == pre.spec_interval()
                &&& post.spec_last_refresh() == now
                &&& post.spec_titles() == titles@
            },
            Err(_) => post == pre,
        }
    }

    /// Builds the cache from the one startup load. A failed load still
    /// yields a cache, with an empty snapshot, so startup never fails here.
    pub fn init(
        refresh_interval: u64,
        now: u64,
        loaded: Result<Vec<String>, StorageError>,
    ) -> (c: Self)
        ensures
            c.spec_interval() == refresh_interval,
            c.spec_last_refresh() == now,
            match loaded {
                Ok(titles) => c.spec_titles() == titles@,
                Err(_) => c.spec_titles().len() == 0,
            },
    {
        let titles = match loaded {
            Ok(t) => t,
            Err(_) => Vec::new(),
        };
        GameTitleCache { refresh_interval, last_refresh: now, cache: titles }
    }

    /// The current snapshot; never blocks and never fails.
    pub fn cache(&self) -> (titles: &Vec<String>)
        ensures
            titles@ == self.spec_titles(),
    {
        &self.cache
    }

    /// The conditional half of an update round: whether a reload is wanted
    /// at clock reading `now`.
    pub fn needs_refresh(&self, now: u64) -> (r: bool)
        ensures
            r == self.spec_needs_refresh(now),
    {
        let elapsed: u64 = if now >= self.last_refresh {
            now - self.last_refresh
        } else {
            0
        };
        elapsed > self.refresh_interval || self.cache.len() == 0
    }

    /// Applies a reload outcome unconditionally: no staleness test guards
    /// this call. On success the snapshot is replaced as a whole and the
    /// refresh stamp set to `now`; on failure both stay untouched.
    pub fn force_update(&mut self, now: u64, loaded: Result<Vec<String>, StorageError>)
        ensures
            Self::spec_refresh_applied(*old(self), *final(self), now, loaded),
    {
        match loaded {
            Ok(titles) => {
                self.cache = titles;
                self.last_refresh = now;
            },
            Err(_) => {},
        }
    }
}

/// Two update rounds in immediate succession reload at most once: after a
/// reload that brought a non-empty snapshot at `now`, no further reload is
/// wanted at any reading `later` within the refresh interval, so the second
/// round's `needs_refresh` answers false and the round is a no-op.
pub proof fn lemma_update_reloads_at_most_once(
    pre: GameTitleCache,
    post: GameTitleCache,
    now: u64,
    titles: Vec<String>,
    later: u64,
)
    requires
        GameTitleCache::spec_refresh_applied(pre, post, now, Ok(titles)),
        titles@.len() > 0,
        now <= later,
        later - now <= post.spec_interval(),
    ensures
        !post.spec_needs_refresh(later),
{
}

/// A failed reload is invisible: the snapshot read after the round equals
/// the snapshot read before it, and the refresh stamp keeps its value, so
/// the next round retries.
pub proof fn lemma_failed_reload_keeps_snapshot(
    pre: GameTitleCache,
    post: GameTitleCache,
    now: u64,
    error: StorageError,
)
    requires
        GameTitleCache::spec_refresh_applied(pre, post, now, Err(error)),
    ensures
        post.spec_titles() == pre.spec_titles(),
        post.spec_last_refresh() == pre.spec_last_refresh(),
{
}

/// A forced reload installs the loaded snapshot whatever the cache held and
/// however recently it was refreshed: nothing about `pre`'s age or contents
/// is assumed, so this holds in particular right after `init`.
pub proof fn lemma_force_update_reloads(
    pre: GameTitleCache,
    post: GameTitleCache,
    now: u64,
    titles: Vec<String>,
)
    requires
        GameTitleCache::spec_refresh_applied(pre, post, now, Ok(titles)),
    ensures
        post.spec_titles() == titles@,
        post.spec_last_refresh() == now,
{
}

/// A snapshot of the external service's app list, refreshed on the same
/// schedule as the title cache. A failed fetch is reported by the caller as
/// an empty list, matching the service client's behaviour.
pub struct SteamAppCache {
    refresh_interval: u64,
    last_refresh: u64,
    cache: Vec<App>,
}

/// No app among the first `upto` entries carries the name `name`.
pub open spec fn no_app_named(apps: Seq<App>, upto: int, name: Seq<char>) -> bool {
    forall|j: int| 0 <= j < upto ==> (#[trigger] apps[j]).spec_name() != name
}

impl SteamAppCache {
    /// Seconds the snapshot may age before a reload is wanted.
    pub closed spec fn spec_interval(&self) -> u64 {
        self.refresh_interval
    }

    /// Clock reading stamped by the last applied reload.
    pub closed spec fn spec_last_refresh(&self) -> u64 {
        self.last_refresh
    }

    /// The current snapshot.
    pub closed spec fn spec_apps(&self) -> Seq<App> {
        self.cache@
    }

    /// A reload is wanted when the snapshot has outlived the refresh
    /// interval or is empty.
    pub open spec fn spec_needs_refresh(&self, now: u64) -> bool {
        spec_elapsed(self.spec_last_refresh(), now) > self.spec_interval()
            || self.spec_apps().len() == 0
    }

    /// How an applied reload rewrites the state.
    pub open spec fn spec_refresh_applied(pre: Self, post: Self, now: u64, apps: Seq<App>) -> bool {
        &&& post.spec_interval() == pre.spec_interval()
        &&& post.spec_last_refresh() == now
        &&& post.spec_apps() == apps
    }

    /// Builds the cache from the one startup fetch.
    pub fn init(refresh_interval: u64, now: u64, apps: Vec<App>) -> (c: Self)
        ensures
            c.spec_interval() == refresh_interval,
            c.spec_last_refresh() == now,
            c.spec_apps() == apps@,
    {
        SteamAppCache { refresh_interval, last_refresh: now, cache: apps }
    }

    /// The conditional half of an update round.
    pub fn needs_refresh(&self, now: u64) -> (r: bool)
        ensures
            r == self.spec_needs_refresh(now),
    {
        let elapsed: u64 = if now >= self.last_refresh {
            now - self.last_refresh
        } else {
            0
        };
        elapsed > self.refresh_interval || self.cache.len() == 0
    }

    /// Installs a fetched app list unconditionally and stamps `now`.
    pub fn force_update(&mut self, now: u64, apps: Vec<App>)
        ensures
            Self::spec_refresh_applied(*old(self), *final(self), now, apps@),
    {
        self.cache = apps;
        self.last_refresh = now;
    }

    /// The first cached app carrying exactly the given name, if any.
    pub fn find_by_name(&self, name: &str) -> (r: Option<&App>)
        ensures
            match r {
                None => no_app_named(self.spec_apps(), self.spec_apps().len() as int, name@),
                Some(app) => exists|i: int|
                    #![auto]
                    {
                        &&& 0 <= i < self.spec_apps().len()
                        &&& self.spec_apps()[i] == *app
                        &&& app.spec_name() == name@
                        &&& no_app_named(self.spec_apps(), i, name@)
                    },
            },
    {
        let mut i: usize = 0;
        while i < self.cache.len()
            invariant
                i <= self.cache.len(),
                no_app_named(self.cache@, i as int, name@),
            decreases self.cache.len() - i,
        {
            if crate::text::str_eq(self.cache[i].name(), name) {
                proof {
                    let wi = i as int;
                    assert({
                        &&& 0 <= wi < self.spec_apps().len()
                        &&& self.spec_apps()[wi] == self.cache@[wi]
                        &&& self.cache@[wi].spec_name() == name@
                        &&& no_app_named(self.spec_apps(), wi, name@)
                    });
                }
                return Some(&self.cache[i]);
            }
            i += 1;
        }
        None
    }
}

} // verus!
