use badkat::progress::{cost_of, load, Progress, XP_PAT};
use badkat::storage::{load_json, FileRead};

#[test]
fn each_level_costs_more_than_the_last() {
    for l in 1..40 {
        assert!(
            cost_of(l + 1) > cost_of(l),
            "level {} cost {} did not exceed level {} cost {}",
            l + 1,
            cost_of(l + 1),
            l,
            cost_of(l)
        );
    }
}

#[test]
fn a_pat_does_not_level_a_fresh_cat() {
    let mut p = Progress::default();
    assert_eq!(p.award(XP_PAT), 0);
    assert_eq!(p.level, 1);
    assert_eq!(p.xp, XP_PAT);
}

#[test]
fn crossing_a_threshold_carries_the_remainder_over() {
    let mut p = Progress::default();
    let need = p.needed();
    assert_eq!(p.award(need + 7), 1);
    assert_eq!(p.level, 2);
    assert_eq!(p.xp, 7);
}

#[test]
fn one_huge_award_can_cross_several_levels() {
    let mut p = Progress::default();
    let gained = p.award(10_000);
    assert!(gained > 1, "expected multiple levels, got {gained}");
    assert!(p.xp < p.needed());
}

#[test]
fn totals_track_every_award_not_just_the_banked_remainder() {
    let mut p = Progress::default();
    p.award(30);
    p.award(30);
    assert_eq!(p.total_xp, 60);
}

#[test]
fn invalid_primary_recovers_progress_from_backup_with_note() {
    let mut expected = Progress::default();
    expected.award(30);
    // the primary file holds "invalid"; the backup holds `expected`
    let found = load_json(FileRead::Malformed, FileRead::Parsed(expected));
    let (loaded, notes) = load(found);
    assert_eq!(loaded.total_xp, 30);
    assert!(notes
        .iter()
        .any(|note| note.contains("recovered from its backup")));
}

#[test]
fn level_costs_follow_the_rounded_curve() {
    assert_eq!(cost_of(0), 50);
    assert_eq!(cost_of(1), 50);
    assert_eq!(cost_of(2), 65);
    assert_eq!(cost_of(3), 80);
    assert_eq!(cost_of(10), 460);
    assert_eq!(cost_of(75), 4_290_498_540);
    assert_eq!(cost_of(76), u32::MAX);
    assert_eq!(cost_of(77), u32::MAX);
    assert_eq!(cost_of(0x8000_0000), u32::MAX);
    assert_eq!(cost_of(1_000), u32::MAX);
    assert_eq!(cost_of(0x8000_0001), 5);
    // the exponent wraps to -8 ..= -2 at the very top of the range
    assert_eq!(cost_of(u32::MAX - 6), 5);
    assert_eq!(cost_of(u32::MAX - 5), 10);
    assert_eq!(cost_of(u32::MAX - 4), 10);
    assert_eq!(cost_of(u32::MAX - 3), 15);
    assert_eq!(cost_of(u32::MAX - 2), 20);
    assert_eq!(cost_of(u32::MAX - 1), 25);
    assert_eq!(cost_of(u32::MAX), 30);
}

#[test]
fn award_stops_after_fifty_one_levels() {
    let mut p = Progress::default();
    let gained = p.award(u32::MAX);
    assert_eq!(gained, 51);
    assert_eq!(p.level, 52);
    assert_eq!(p.xp, 4_242_544_650);
    assert!(p.xp >= p.needed());
    let mut q = Progress { level: 0x8000_0001, xp: 0, total_xp: 0, closes: 0, pats: 0 };
    assert_eq!(q.award(1_000), 51);
    assert_eq!(q.level, 0x8000_0001 + 51);
    assert_eq!(q.xp, 1_000 - 51 * 5);
}

#[test]
fn totals_saturate_instead_of_wrapping() {
    let mut p = Progress { level: 1, xp: 0, total_xp: u64::MAX - 3, closes: 0, pats: 0 };
    p.award(10);
    assert_eq!(p.total_xp, u64::MAX);
}

#[test]
fn progress_load_reports_what_it_did() {
    let (p, notes) = load(load_json::<Progress>(
        FileRead::NotFound("missing".to_string()),
        FileRead::NotFound("missing".to_string()),
    ));
    assert_eq!(p, Progress::default());
    assert!(notes.is_empty());
    let (p, notes) = load(load_json::<Progress>(
        FileRead::Malformed,
        FileRead::Failed("denied".to_string()),
    ));
    assert_eq!(p, Progress::default());
    assert_eq!(
        notes,
        vec!["progress.json could not be read (primary JSON is invalid; backup: denied), using defaults".to_string()]
    );
}

#[test]
fn awards_that_would_overflow_the_level_are_flagged() {
    let fresh = Progress::default();
    assert!(fresh.award_fits(u32::MAX));
    let top = Progress { level: u32::MAX, xp: 0, total_xp: 0, closes: 0, pats: 0 };
    // the top level costs 30 XP: an award of 30 crosses it, one of 29 does not
    assert!(!top.award_fits(30));
    assert!(top.award_fits(29));
    assert!(top.award_fits(XP_PAT));
    let near = Progress { level: u32::MAX - 1, xp: 0, total_xp: 0, closes: 0, pats: 0 };
    assert!(near.award_fits(25));
    assert!(near.award_fits(54));
    assert!(!near.award_fits(55));
}

#[test]
fn costs_climb_again_at_the_top_of_the_range() {
    for level in (u32::MAX - 4)..u32::MAX {
        assert!(cost_of(level + 1) > cost_of(level), "level {} cost {}", level, cost_of(level));
    }
}
