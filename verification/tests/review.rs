use gerrit_upload::review::{
    complete_review, reconstruct, review_managed, review_notice, ChangeType, ChangedLine,
    ReviewError, ReviewStep, Section,
};
use gerrit_upload::ConfigReviewManagedArgs;

fn changed(is_checked: bool, change_type: ChangeType, line: &str) -> ChangedLine {
    ChangedLine { is_checked, change_type, line: line.to_string() }
}

fn unchanged(lines: &[&str]) -> Section {
    Section::Unchanged { lines: lines.iter().map(|l| l.to_string()).collect() }
}

#[test]
fn test_repo_managed_config() {
    let trust = ConfigReviewManagedArgs { trust: true };

    // The managed file was written, nothing is applied yet, and the review is trusted.
    let managed = b"repo-managed-config.enabled = false".to_vec();
    let step = review_managed(&trust, managed.clone(), Vec::new());
    assert_eq!(step, ReviewStep::Install { config: managed.clone(), last_reviewed: managed.clone() });
    assert_eq!(step.status(), Some("Updated repo config file".to_string()));
    assert_eq!(review_notice(true), None);

    // Nothing changed since: the applied copy is up to date.
    let step = review_managed(&trust, managed.clone(), managed.clone());
    assert_eq!(step, ReviewStep::UpToDate);

    // The managed file changes while the feature is switched off.
    let applied = managed;
    let managed = br#"ui.pager = "repo-managed pager""#.to_vec();
    assert_eq!(
        review_notice(false),
        Some((
            "repo-managed-config is disabled.".to_string(),
            "Enable it with `jj config set <--user|--repo> repo-managed-config.enabled true`"
                .to_string()
        ))
    );
    let step = review_managed(&trust, managed.clone(), applied);
    assert_eq!(step, ReviewStep::Install { config: managed.clone(), last_reviewed: managed });
    assert_eq!(step.status(), Some("Updated repo config file".to_string()));
}

#[test]
fn removed_managed_file_removes_the_applied_copy() {
    let args = ConfigReviewManagedArgs { trust: false };
    let step = review_managed(&args, Vec::new(), b"a = 1\n".to_vec());
    assert_eq!(step, ReviewStep::RemoveApplied);
    assert_eq!(
        step.status(),
        Some(
            "The config file has been removed from the VCS, so we have removed the local copy too."
                .to_string()
        )
    );
    // An empty managed file counts as removed even when nothing is applied.
    assert_eq!(review_managed(&args, Vec::new(), Vec::new()), ReviewStep::RemoveApplied);
}

#[test]
fn equal_files_are_up_to_date() {
    let args = ConfigReviewManagedArgs { trust: false };
    let step = review_managed(&args, b"a = 1\n".to_vec(), b"a = 1\n".to_vec());
    assert_eq!(step, ReviewStep::UpToDate);
    assert_eq!(step.status(), Some("Your config file is already up to date".to_string()));
}

#[test]
fn untrusted_change_is_reviewed() {
    let args = ConfigReviewManagedArgs { trust: false };
    let step = review_managed(&args, "a = 2\nb = \u{e9}\n".as_bytes().to_vec(), b"a = 1\n".to_vec());
    assert_eq!(
        step,
        ReviewStep::Review { applied: "a = 1\n".to_string(), managed: "a = 2\nb = \u{e9}\n".to_string() }
    );
    assert_eq!(step.status(), None);
}

#[test]
fn applied_file_must_be_utf8() {
    let args = ConfigReviewManagedArgs { trust: false };
    let step = review_managed(&args, b"a = 2\n".to_vec(), vec![0xff, 0xfe]);
    assert_eq!(step, ReviewStep::Fail(ReviewError::AppliedNotUtf8));
    assert_eq!(step.status(), Some("Currently applied config was not utf-8".to_string()));
    // The applied file is looked at first.
    let both = review_managed(&args, vec![0xc0], vec![0xff, 0xfe]);
    assert_eq!(both, ReviewStep::Fail(ReviewError::AppliedNotUtf8));
}

#[test]
fn managed_file_must_be_utf8() {
    let args = ConfigReviewManagedArgs { trust: false };
    let step = review_managed(&args, vec![0x61, 0x80], b"a = 1\n".to_vec());
    assert_eq!(step, ReviewStep::Fail(ReviewError::ManagedNotUtf8));
    assert_eq!(step.status(), Some("Config stored in VCS was not utf-8".to_string()));
}

#[test]
fn trusted_change_is_installed_without_decoding() {
    let args = ConfigReviewManagedArgs { trust: true };
    let step = review_managed(&args, vec![0xff], b"a = 1\n".to_vec());
    assert_eq!(step, ReviewStep::Install { config: vec![0xff], last_reviewed: vec![0xff] });
}

#[test]
fn reconstruct_keeps_accepted_additions_and_rejected_removals() {
    let sections = vec![
        unchanged(&["a = 1\n", "b = 2\n"]),
        Section::Changed {
            lines: vec![
                changed(true, ChangeType::Removed, "c = 3\n"),
                changed(true, ChangeType::Added, "c = 4\n"),
                changed(false, ChangeType::Removed, "d = 5\n"),
                changed(false, ChangeType::Added, "d = 6\n"),
            ],
        },
        Section::Other,
        unchanged(&["e = 7"]),
    ];
    assert_eq!(reconstruct(&sections), "a = 1\nb = 2\nc = 4\nd = 5\ne = 7");
}

#[test]
fn reconstruct_of_nothing_is_empty() {
    assert_eq!(reconstruct(&vec![]), "");
    assert_eq!(reconstruct(&vec![Section::Other, unchanged(&[])]), "");
    assert_eq!(reconstruct(&vec![Section::Changed { lines: vec![] }]), "");
}

#[test]
fn accepting_everything_gives_the_new_text() {
    let sections = vec![Section::Changed {
        lines: vec![
            changed(true, ChangeType::Removed, "old\n"),
            changed(true, ChangeType::Added, "new\n"),
        ],
    }];
    assert_eq!(reconstruct(&sections), "new\n");
    let none = vec![Section::Changed {
        lines: vec![
            changed(false, ChangeType::Removed, "old\n"),
            changed(false, ChangeType::Added, "new\n"),
        ],
    }];
    assert_eq!(reconstruct(&none), "old\n");
}

#[test]
fn completed_review_installs_the_chosen_text() {
    let sections = vec![
        unchanged(&["a = 1\n"]),
        Section::Changed { lines: vec![changed(true, ChangeType::Added, "b = \u{e9}\n")] },
    ];
    let step = complete_review(&sections, b"managed".to_vec());
    assert_eq!(
        step,
        ReviewStep::Install {
            config: "a = 1\nb = \u{e9}\n".as_bytes().to_vec(),
            last_reviewed: b"managed".to_vec()
        }
    );
}
