use jj_session::commit::Commit;
use jj_session::conflicts::{
    clone_commit_ids, commit_ids, commits_by_change_id, conflict_delta, hint_lines,
    ConflictDelta, ConflictGroup, ConflictHint, ConflictRange, ConflictReport, ConflictReporter,
    HintHeading, ReporterAction, ReporterEvent,
};
use jj_session::object_id::{ChangeId, CommitId, TreeId};

fn cid(tag: u8) -> CommitId {
    CommitId::new(vec![tag; 8])
}

fn change(tag: u8) -> ChangeId {
    ChangeId::new(vec![tag; 8])
}

fn ccommit(id: u8, change_tag: u8) -> Commit {
    Commit::new(cid(id), change(change_tag), TreeId::new(vec![id; 8]))
}

fn group(change_tag: u8, ids: &[u8]) -> ConflictGroup {
    ConflictGroup {
        change_id: change(change_tag),
        commits: ids.iter().map(|i| ccommit(*i, change_tag)).collect(),
    }
}

#[test]
fn commits_are_grouped_by_change_in_first_seen_order() {
    let commits =
        vec![ccommit(1, 0xb), ccommit(2, 0xa), ccommit(3, 0xb), ccommit(4, 0xc), ccommit(5, 0xa)];
    assert_eq!(
        commits_by_change_id(&commits),
        vec![group(0xb, &[1, 3]), group(0xa, &[2, 5]), group(0xc, &[4])]
    );
    assert_eq!(commits_by_change_id(&vec![]), Vec::<ConflictGroup>::new());
    let g = group(0xb, &[1, 3]);
    assert_eq!(g.clone(), g);
}

#[test]
fn change_on_both_sides_is_not_reported() {
    // X is rewritten but still conflicted; Y only left; Z only joined.
    let removed = vec![ccommit(1, 0x1), ccommit(2, 0x2)];
    let added = vec![ccommit(3, 0x1), ccommit(4, 0x3)];
    assert_eq!(
        conflict_delta(&removed, &added),
        ConflictDelta { resolved: vec![group(0x2, &[2])], new_conflicts: vec![group(0x3, &[4])] }
    );
}

#[test]
fn resolved_conflict_is_reported_once() {
    // The conflicted commit of X was rewritten to one without conflict.
    let removed = vec![ccommit(1, 0x1)];
    let added = vec![];
    assert_eq!(
        conflict_delta(&removed, &added),
        ConflictDelta { resolved: vec![group(0x1, &[1])], new_conflicts: vec![] }
    );
    // Another conflicted commit of X still exists: X is in neither list.
    let added = vec![ccommit(9, 0x1)];
    assert_eq!(
        conflict_delta(&removed, &added),
        ConflictDelta { resolved: vec![], new_conflicts: vec![] }
    );
}

#[test]
fn no_change_is_both_resolved_and_new() {
    let removed = vec![ccommit(1, 1), ccommit(2, 2), ccommit(3, 3), ccommit(4, 2)];
    let added = vec![ccommit(5, 3), ccommit(6, 4), ccommit(7, 5), ccommit(8, 4)];
    let delta = conflict_delta(&removed, &added);
    assert_eq!(delta.resolved, vec![group(1, &[1]), group(2, &[2, 4])]);
    assert_eq!(delta.new_conflicts, vec![group(4, &[6, 8]), group(5, &[7])]);
    for r in &delta.resolved {
        assert!(delta.new_conflicts.iter().all(|n| n.change_id != r.change_id));
    }
}

#[test]
fn reporter_asks_for_both_ranges_and_finishes_without_conflicts() {
    let reporter = ConflictReporter::new();
    assert!(!reporter.is_finished());
    let (reporter, action) = reporter.step(ReporterEvent::Start {
        old_heads: vec![cid(1), cid(2)],
        new_heads: vec![cid(3)],
    });
    assert_eq!(
        action,
        ReporterAction::EvaluateConflicts {
            removed: ConflictRange { roots: vec![cid(3)], heads: vec![cid(1), cid(2)] },
            added: ConflictRange { roots: vec![cid(1), cid(2)], heads: vec![cid(3)] },
        }
    );
    let (reporter, action) =
        reporter.step(ReporterEvent::Conflicts { removed: vec![], added: vec![] });
    assert_eq!(
        action,
        ReporterAction::Finish(ConflictReport {
            resolved: vec![],
            new_conflicts: vec![],
            still_unresolved: false,
            hint: None,
        })
    );
    assert!(reporter.is_finished());
}

fn evaluating() -> ConflictReporter {
    let (reporter, _) = ConflictReporter::new()
        .step(ReporterEvent::Start { old_heads: vec![cid(1)], new_heads: vec![cid(2)] });
    reporter
}

#[test]
fn reporter_without_added_conflicts_gives_no_hint() {
    let (reporter, action) = evaluating()
        .step(ReporterEvent::Conflicts { removed: vec![ccommit(1, 1)], added: vec![] });
    assert_eq!(
        action,
        ReporterAction::Finish(ConflictReport {
            resolved: vec![group(1, &[1])],
            new_conflicts: vec![],
            still_unresolved: false,
            hint: None,
        })
    );
    assert!(reporter.is_finished());
}

#[test]
fn reporter_with_unchanged_conflicts_gives_no_hint() {
    let (_, action) = evaluating().step(ReporterEvent::Conflicts {
        removed: vec![ccommit(1, 1)],
        added: vec![ccommit(2, 1)],
    });
    assert_eq!(
        action,
        ReporterAction::Finish(ConflictReport {
            resolved: vec![],
            new_conflicts: vec![],
            still_unresolved: false,
            hint: None,
        })
    );
}

#[test]
fn reporter_hints_at_single_new_conflict() {
    let (reporter, action) = evaluating()
        .step(ReporterEvent::Conflicts { removed: vec![], added: vec![ccommit(5, 7)] });
    assert_eq!(action, ReporterAction::FindRoots { commits: vec![cid(5)] });
    assert!(!reporter.is_finished());
    let (reporter, action) = reporter.step(ReporterEvent::Roots(vec![ccommit(5, 7)]));
    assert_eq!(
        action,
        ReporterAction::Finish(ConflictReport {
            resolved: vec![],
            new_conflicts: vec![group(7, &[5])],
            still_unresolved: false,
            hint: Some(ConflictHint { heading: HintHeading::It, roots: vec![ccommit(5, 7)] }),
        })
    );
    assert!(reporter.is_finished());
}

#[test]
fn reporter_tells_of_conflicts_left_in_descendants() {
    // One change was resolved; a descendant of another change is still conflicted.
    let (reporter, action) = evaluating().step(ReporterEvent::Conflicts {
        removed: vec![ccommit(1, 1), ccommit(2, 2)],
        added: vec![ccommit(3, 2), ccommit(4, 2)],
    });
    assert_eq!(action, ReporterAction::FindRoots { commits: vec![cid(3), cid(4)] });
    let (_, action) = reporter.step(ReporterEvent::Roots(vec![ccommit(3, 2)]));
    assert_eq!(
        action,
        ReporterAction::Finish(ConflictReport {
            resolved: vec![group(1, &[1])],
            new_conflicts: vec![],
            still_unresolved: true,
            hint: Some(ConflictHint {
                heading: HintHeading::FirstOne,
                roots: vec![ccommit(3, 2)]
            }),
        })
    );
}

#[test]
fn reporter_names_several_roots() {
    let (reporter, _) = evaluating().step(ReporterEvent::Conflicts {
        removed: vec![],
        added: vec![ccommit(3, 2), ccommit(4, 3)],
    });
    let (_, action) = reporter.step(ReporterEvent::Roots(vec![ccommit(3, 2), ccommit(4, 3)]));
    assert_eq!(
        action,
        ReporterAction::Finish(ConflictReport {
            resolved: vec![],
            new_conflicts: vec![group(2, &[3]), group(3, &[4])],
            still_unresolved: false,
            hint: Some(ConflictHint {
                heading: HintHeading::OneOfFirstOnes,
                roots: vec![ccommit(3, 2), ccommit(4, 3)]
            }),
        })
    );
}

#[test]
fn reporter_without_roots_gives_no_hint() {
    let (reporter, _) = evaluating()
        .step(ReporterEvent::Conflicts { removed: vec![], added: vec![ccommit(3, 2)] });
    let (_, action) = reporter.step(ReporterEvent::Roots(vec![]));
    assert_eq!(
        action,
        ReporterAction::Finish(ConflictReport {
            resolved: vec![],
            new_conflicts: vec![group(2, &[3])],
            still_unresolved: false,
            hint: None,
        })
    );
}

#[test]
fn reporter_unexpected_event_fails() {
    let (reporter, action) = ConflictReporter::new().step(ReporterEvent::Roots(vec![]));
    assert_eq!(action, ReporterAction::Fail);
    assert!(reporter.is_finished());
    let (_, action) = evaluating().step(ReporterEvent::Roots(vec![]));
    assert_eq!(action, ReporterAction::Fail);
}

#[test]
fn hint_lines_name_each_root_by_change() {
    let footer = "Then use `jj resolve`, or edit the conflict markers in the file directly.\nOnce the conflicts are resolved, you may want inspect the result with `jj diff`.\nThen run `jj squash` to move the resolution into the conflicted commit.\n";
    let hint = ConflictHint { heading: HintHeading::It, roots: vec![ccommit(1, 0x12)] };
    assert_eq!(
        hint_lines(&hint),
        vec![
            "To resolve the conflicts, start by updating to it:\n".to_string(),
            "  jj new yxyxyxyxyxyx\n".to_string(),
            footer.to_string(),
        ]
    );
    let hint = ConflictHint {
        heading: HintHeading::OneOfFirstOnes,
        roots: vec![ccommit(1, 0x00), ccommit(2, 0xff)],
    };
    assert_eq!(
        hint_lines(&hint),
        vec![
            "To resolve the conflicts, start by updating to one of the first ones:\n".to_string(),
            "  jj new zzzzzzzzzzzz\n".to_string(),
            "  jj new kkkkkkkkkkkk\n".to_string(),
            footer.to_string(),
        ]
    );
    let hint = ConflictHint { heading: HintHeading::FirstOne, roots: vec![] };
    assert_eq!(
        hint_lines(&hint),
        vec![
            "To resolve the conflicts, start by updating to the first one:\n".to_string(),
            footer.to_string(),
        ]
    );
}

#[test]
fn commit_id_helpers_copy_ids() {
    assert_eq!(commit_ids(&vec![ccommit(1, 2), ccommit(3, 4)]), vec![cid(1), cid(3)]);
    assert_eq!(clone_commit_ids(&vec![cid(1), cid(3)]), vec![cid(1), cid(3)]);
}
