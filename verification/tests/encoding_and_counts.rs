//! The result-encoding invariant and the status-counting arithmetic.

use vcs_providers::encoding::NamespaceResult;
use vcs_providers::encoding::build_return_value;
use vcs_providers::git::status_count_value;
use vcs_providers::index;
use vcs_providers::status::MODIFIED_MASK;
use vcs_providers::status::STAGED_MASK;
use vcs_providers::status::STATUS_INDEX_NEW;
use vcs_providers::status::STATUS_WT_MODIFIED;
use vcs_providers::status::STATUS_WT_NEW;
use vcs_providers::status::StatusMask;
use vcs_providers::status::count_matching_entries;

#[test]
fn absent_result_exposes_no_payload() {
    let r = NamespaceResult::absent();
    assert!(!r.exists);
    assert_eq!(r.data, None);
}

#[test]
fn present_result_carries_value() {
    let r = build_return_value("7".to_string());
    assert!(r.exists);
    assert_eq!(r.data, Some("7".to_string()));
}

#[test]
fn index_lists_the_five_providers() {
    assert_eq!(index(), "branch modified_count staged_count ahead_count behind_count");
}

#[test]
fn masks_hold_the_documented_bits() {
    assert_eq!(StatusMask::modified().bits, MODIFIED_MASK);
    assert_eq!(StatusMask::staged().bits, STAGED_MASK);
    assert_eq!(MODIFIED_MASK, 512 | 256 | 2048 | 1024);
    assert_eq!(STAGED_MASK, 4 | 2 | 1 | 8 | 16);
}

#[test]
fn counting_selects_by_intersection() {
    let bits = vec![STATUS_WT_MODIFIED, STATUS_INDEX_NEW, STATUS_WT_NEW, 0];
    assert_eq!(count_matching_entries(&bits, StatusMask::modified()), 1);
    assert_eq!(count_matching_entries(&bits, StatusMask::staged()), 1);
    let both = STATUS_WT_MODIFIED | STATUS_INDEX_NEW;
    let bits = vec![both, both];
    assert_eq!(count_matching_entries(&bits, StatusMask::modified()), 2);
    assert_eq!(count_matching_entries(&bits, StatusMask::staged()), 2);
}

#[test]
fn counting_is_order_independent() {
    let one = vec![STATUS_WT_MODIFIED, STATUS_INDEX_NEW, 0, STATUS_WT_NEW, STATUS_WT_MODIFIED];
    let other = vec![STATUS_WT_MODIFIED, STATUS_WT_MODIFIED, STATUS_WT_NEW, 0, STATUS_INDEX_NEW];
    for mask in [StatusMask::modified(), StatusMask::staged()] {
        assert_eq!(
            count_matching_entries(&one, mask),
            count_matching_entries(&other, mask)
        );
    }
}

#[test]
fn count_value_is_decimal_text() {
    let empty: Vec<u32> = vec![];
    assert_eq!(status_count_value(&empty, StatusMask::modified()), "0");
    let bits = vec![STATUS_WT_MODIFIED; 12];
    assert_eq!(status_count_value(&bits, StatusMask::modified()), "12");
    let bits = vec![STATUS_WT_MODIFIED; 105];
    assert_eq!(status_count_value(&bits, StatusMask::modified()), "105");
}
