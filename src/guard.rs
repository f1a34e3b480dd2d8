//! The forbidden-context guard: decides whether automated text mutation is
//! permitted for the foreground window, and the short-lived cache of what is
//! known of that window.
use vstd::prelude::*;

use crate::config::ForbiddenContextsConfig;
use crate::text::{chars_of, contains_chars, copy_range, is_infix, lower_of, lowercase, string_of};

verus! {

/// How long a cached description of a window stays valid, in milliseconds.
pub const ACTIVE_WINDOW_CACHE_TTL_MS: u64 = 250;

/// What is known of the foreground window.
#[derive(Clone, Debug)]
pub struct ActiveWindowInfo {
    pub title: String,
    pub process_name: Option<String>,
}

/// Some non-empty entry of `needles` occurs in `hay`.
pub open spec fn any_infix(hay: Seq<char>, needles: Seq<Seq<char>>) -> bool {
    exists|k: int|
        0 <= k < needles.len() && #[trigger] needles[k].len() > 0 && is_infix(needles[k], hay)
}

pub open spec fn views_of(v: Seq<String>) -> Seq<Seq<char>> {
    v.map_values(|s: String| s@)
}

pub open spec fn lowered(v: Seq<String>) -> Seq<Seq<char>> {
    v.map_values(|s: String| lower_of(s@))
}

/// Case-insensitive match of any non-empty needle in `haystack`.
pub open spec fn matches_any(haystack: Seq<char>, needles: Seq<String>) -> bool {
    any_infix(lower_of(haystack), lowered(needles))
}

/// Whether some non-empty entry of `needles` occurs in `haystack`, both taken
/// as already case-folded.
pub fn contains_any_folded(haystack: &str, needles: &Vec<String>) -> (r: bool)
    ensures
        r == any_infix(haystack@, views_of(needles@)),
{
    let hay = chars_of(haystack);
    let mut k: usize = 0;
    while k < needles.len()
        invariant
            k <= needles.len(),
            hay@ == haystack@,
            forall|j: int|
                0 <= j < k ==> !(#[trigger] views_of(needles@)[j].len() > 0 && is_infix(
                    views_of(needles@)[j],
                    haystack@,
                )),
        decreases needles.len() - k,
    {
        let needle = chars_of(needles[k].as_str());
        if needle.len() > 0 && contains_chars(&hay, &needle) {
            assert(views_of(needles@)[k as int] == needle@);
            return true;
        }
        k = k + 1;
    }
    false
}

/// Whether some non-empty entry of `needles` occurs in `haystack`, Unicode
/// case ignored.
pub fn contains_any(haystack: &str, needles: &Vec<String>) -> (r: bool)
    ensures
        r == matches_any(haystack@, needles@),
{
    let hay = lowercase(haystack);
    let mut folded: Vec<String> = Vec::new();
    let mut k: usize = 0;
    while k < needles.len()
        invariant
            k <= needles.len(),
            folded@.len() == k,
            forall|j: int| 0 <= j < k ==> #[trigger] folded@[j]@ == lower_of(needles@[j]@),
        decreases needles.len() - k,
    {
        let f = lowercase(needles[k].as_str());
        folded.push(f);
        k = k + 1;
    }
    assert(views_of(folded@) =~= lowered(needles@));
    contains_any_folded(hay.as_str(), &folded)
}

/// The window matches a blocked title, or a blocked process by its name.
pub open spec fn window_forbidden(info: ActiveWindowInfo, forbidden: ForbiddenContextsConfig) -> bool {
    ||| matches_any(info.title@, forbidden.blocked_windows@)
    ||| (info.process_name matches Some(p) && matches_any(p@, forbidden.blocked_processes@))
}

pub fn is_forbidden(info: &ActiveWindowInfo, forbidden: &ForbiddenContextsConfig) -> (r: bool)
    ensures
        r == window_forbidden(*info, *forbidden),
{
    if contains_any(info.title.as_str(), &forbidden.blocked_windows) {
        return true;
    }
    match &info.process_name {
        Some(p) => contains_any(p.as_str(), &forbidden.blocked_processes),
        None => false,
    }
}

/// The last description fetched, keyed by window handle.
pub struct CachedWindow {
    pub hwnd_key: usize,
    pub info: ActiveWindowInfo,
    pub updated_at_ms: u64,
}

/// A one-entry cache of the foreground window's description.
pub struct WindowInfoCache {
    pub entry: Option<CachedWindow>,
}

/// The entry still describes window `hwnd_key` at time `now_ms`.
pub open spec fn entry_fresh(e: CachedWindow, hwnd_key: usize, now_ms: u64) -> bool {
    e.hwnd_key == hwnd_key && now_ms <= e.updated_at_ms + ACTIVE_WINDOW_CACHE_TTL_MS
}

impl WindowInfoCache {
    pub fn new() -> (r: Self)
        ensures
            r.entry is None,
    {
        WindowInfoCache { entry: None }
    }

    /// The cached description of window `hwnd_key`, if it is at most the
    /// cache lifetime old at `now_ms`.
    pub fn lookup(&self, hwnd_key: usize, now_ms: u64) -> (r: Option<&ActiveWindowInfo>)
        ensures
            r == (match self.entry {
                Some(e) => if entry_fresh(e, hwnd_key, now_ms) {
                    Some(&e.info)
                } else {
                    None
                },
                None => None,
            }),
    {
        match &self.entry {
            Some(e) => {
                let fresh = e.hwnd_key == hwnd_key && (now_ms <= e.updated_at_ms || now_ms
                    - e.updated_at_ms <= ACTIVE_WINDOW_CACHE_TTL_MS);
                if fresh {
                    Some(&e.info)
                } else {
                    None
                }
            },
            None => None,
        }
    }

    /// Records a freshly fetched description of window `hwnd_key`.
    pub fn store(&mut self, hwnd_key: usize, info: ActiveWindowInfo, now_ms: u64)
        ensures
            final(self).entry == Some(CachedWindow { hwnd_key, info, updated_at_ms: now_ms }),
    {
        self.entry = Some(CachedWindow { hwnd_key, info, updated_at_ms: now_ms });
    }
}

pub open spec fn is_path_separator(c: char) -> bool {
    c == '\\' || c == '/'
}

/// The part of a path after its last separator (`\` or `/`).
pub open spec fn after_last_separator(s: Seq<char>) -> Seq<char>
    decreases s.len(),
{
    if s.len() == 0 {
        s
    } else if is_path_separator(s.last()) {
        Seq::empty()
    } else {
        after_last_separator(s.drop_last()).push(s.last())
    }
}

/// The executable's file name in a full image path: what follows the last
/// separator, or none when that is empty.
pub fn process_base_name(path: &str) -> (r: Option<String>)
    ensures
        after_last_separator(path@).len() == 0 ==> r is None,
        after_last_separator(path@).len() > 0 ==> (r matches Some(n) && n@ == after_last_separator(path@)),
{
    let cs = chars_of(path);
    let mut j: usize = cs.len();
    assert(cs@.subrange(0, cs@.len() as int) =~= cs@);
    assert(cs@.subrange(cs@.len() as int, cs@.len() as int) =~= Seq::<char>::empty());
    while j > 0 && !(cs[j - 1] == '\\' || cs[j - 1] == '/')
        invariant
            j <= cs@.len(),
            cs@ == path@,
            after_last_separator(cs@) == after_last_separator(cs@.subrange(0, j as int)) + cs@.subrange(
                j as int,
                cs@.len() as int,
            ),
        decreases j,
    {
        let ghost pre = cs@.subrange(0, j as int);
        assert(pre.drop_last() =~= cs@.subrange(0, j - 1));
        assert(after_last_separator(pre) == after_last_separator(cs@.subrange(0, j - 1)).push(cs@[j - 1]));
        assert(after_last_separator(cs@.subrange(0, j - 1)).push(cs@[j - 1]) + cs@.subrange(j as int, cs@.len() as int)
            =~= after_last_separator(cs@.subrange(0, j - 1)) + cs@.subrange(j - 1, cs@.len() as int));
        j = j - 1;
    }
    proof {
        let pre = cs@.subrange(0, j as int);
        assert(after_last_separator(pre) == Seq::<char>::empty());
        assert(Seq::<char>::empty() + cs@.subrange(j as int, cs@.len() as int) =~= cs@.subrange(j as int, cs@.len() as int));
    }
    if j == cs.len() {
        return None;
    }
    Some(string_of(&copy_range(&cs, j, cs.len())))
}

} // verus!
