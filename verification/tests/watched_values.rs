use superstars_autosplitter::watched::Watched;

#[test]
fn edge_detection_sequence() {
    // Samples: fail, false, false, true, true, false.
    let samples: Vec<Option<bool>> = vec![None, Some(false), Some(false), Some(true), Some(true), Some(false)];
    let mut w: Watched<bool> = Watched::new();
    let mut rose: Vec<usize> = Vec::new();
    let mut fell: Vec<usize> = Vec::new();
    for (i, s) in samples.iter().enumerate() {
        w.update(*s);
        if w.changed_to(true) {
            rose.push(i);
        }
        if w.changed_to(false) {
            fell.push(i);
        }
    }
    // changed_to(true) fires exactly once, where the sample becomes true
    // after being false; changed_to(false) exactly once, at the final step.
    assert_eq!(rose, vec![3]);
    assert_eq!(fell, vec![5]);
}

#[test]
fn hold_on_failure_keeps_value_and_reports_no_change() {
    let mut w: Watched<u32> = Watched::new();
    w.update(Some(41));
    for _ in 0..6 {
        w.update(None);
        assert_eq!(w.current_value(), Some(41));
        assert!(!w.changed());
    }
}

#[test]
fn hold_on_failure_clears_pending_edge() {
    let mut w: Watched<u32> = Watched::new();
    w.update(Some(1));
    w.update(Some(2));
    assert!(w.changed());
    w.update(None);
    assert_eq!(w.current_value(), Some(2));
    assert!(!w.changed());
}

#[test]
fn failure_before_first_sample_stays_empty() {
    let mut w: Watched<bool> = Watched::new();
    w.update(None);
    assert_eq!(w.current_value(), None);
    assert!(!w.changed());
    assert!(!w.changed_to(true));
    assert!(!w.changed_to(false));
}

#[test]
fn default_installed_only_before_first_sample() {
    let mut w: Watched<bool> = Watched::new();
    w.update_or(None, false);
    assert_eq!(w.current_value(), Some(false));
    w.update_or(Some(true), false);
    assert_eq!(w.current_value(), Some(true));
    // A later failure holds the good value; the default never overwrites it.
    w.update_or(None, false);
    assert_eq!(w.current_value(), Some(true));
    assert!(!w.changed());
}

#[test]
fn first_sample_is_not_an_edge() {
    let mut w: Watched<u32> = Watched::new();
    w.update(Some(5));
    assert!(!w.changed());
    assert!(!w.changed_to(5));
    assert!(!w.changed_from(5));
}

#[test]
fn changed_from_fires_on_leaving_value() {
    let mut w: Watched<u32> = Watched::new();
    w.update(Some(5));
    w.update(Some(9));
    assert!(w.changed());
    assert!(w.changed_from(5));
    assert!(!w.changed_from(9));
    assert!(w.changed_to(9));
}

#[test]
fn repeated_value_is_no_edge() {
    let mut w: Watched<u32> = Watched::new();
    w.update(Some(5));
    w.update(Some(9));
    w.update(Some(9));
    assert!(!w.changed());
    assert!(!w.changed_to(9));
    assert!(!w.changed_from(5));
}

#[test]
fn default_trait_builds_empty_history() {
    let w: Watched<u32> = Default::default();
    assert_eq!(w.current_value(), None);
}
