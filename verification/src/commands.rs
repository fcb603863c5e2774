//! What the window commands decide without the shared state: which link
//! may be opened, where the hitbox window goes, and what an update check
//! reports.

use vstd::prelude::*;
use crate::text::chars_of;
use crate::win::chars_equal_str;

verus! {

pub const SITE_URL: &'static str = "https://badkat.cypherion.tech";

pub const REPO_URL: &'static str = "https://github.com/X-DIABLO-X/badkat";

/// The link named by `which`. The command takes a key, not a URL, so that
/// nothing but the project's own two links can be opened through it.
pub fn link_for(which: &str) -> (r: Option<&'static str>)
    ensures
        which@ == "site"@ ==> r == Some(SITE_URL),
        which@ == "repo"@ ==> r == Some(REPO_URL),
        which@ != "site"@ && which@ != "repo"@ ==> r is None,
{
    let key = chars_of(which);
    proof {
        reveal_strlit("site");
        reveal_strlit("repo");
        assert("site"@[0] != "repo"@[0]);
    }
    if chars_equal_str(&key, "site") {
        Some(SITE_URL)
    } else if chars_equal_str(&key, "repo") {
        Some(REPO_URL)
    } else {
        None
    }
}

/// Where the hitbox window is parked while the cat has no size.
pub const PARK_AT: i32 = -10_000;

/// Where the small always-interactive hitbox window goes: over the cat's
/// box `(x, y, w, h)`, given in the overlay's own coordinates, whose
/// origin is the work area's `(origin_x, origin_y)`; parked off-screen
/// when the box is empty.
#[derive(Debug, Clone, Copy, PartialEq, Eq, Structural)]
pub enum Hitbox {
    Park,
    Place { x: i32, y: i32, w: i32, h: i32 },
}

pub fn hitbox_placement(origin_x: i32, origin_y: i32, x: i32, y: i32, w: i32, h: i32) -> (r: Hitbox)
    requires
        w > 0 && h > 0 ==> i32::MIN <= origin_x + x <= i32::MAX && i32::MIN <= origin_y + y <= i32::MAX,
    ensures
        w <= 0 || h <= 0 ==> r == Hitbox::Park,
        w > 0 && h > 0 ==> r == (Hitbox::Place { x: (origin_x + x) as i32, y: (origin_y + y) as i32, w, h }),
{
    if w <= 0 || h <= 0 {
        Hitbox::Park
    } else {
        Hitbox::Place { x: origin_x + x, y: origin_y + y, w, h }
    }
}

/// What an update check reports to the dashboard.
#[derive(Debug)]
pub struct UpdateInfo {
    pub available: bool,
    pub current: String,
    pub version: String,
    pub notes: String,
    pub date: String,
    /// why the check itself failed (offline, no release yet), or empty
    pub error: String,
}

impl UpdateInfo {
    /// No update: `error` says why when the check failed.
    pub fn none(current: &str, error: String) -> (r: Self)
        ensures
            !r.available,
            r.current@ == current@,
            r.version@.len() == 0,
            r.notes@.len() == 0,
            r.date@.len() == 0,
            r.error == error,
    {
        UpdateInfo {
            available: false,
            current: String::from_str(current),
            version: String::new(),
            notes: String::new(),
            date: String::new(),
            error,
        }
    }

    /// An update to `version`; missing notes or date read as empty.
    pub fn found(current: String, version: String, notes: Option<String>, date: Option<String>) -> (r: Self)
        ensures
            r.available,
            r.current == current,
            r.version == version,
            match notes {
                Some(n) => r.notes == n,
                None => r.notes@.len() == 0,
            },
            match date {
                Some(d) => r.date == d,
                None => r.date@.len() == 0,
            },
            r.error@.len() == 0,
    {
        UpdateInfo {
            available: true,
            current,
            version,
            notes: match notes {
                Some(n) => n,
                None => String::new(),
            },
            date: match date {
                Some(d) => d,
                None => String::new(),
            },
            error: String::new(),
        }
    }
}

} // verus!
