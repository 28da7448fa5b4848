//! The git query engine: the `branch`, `modified_count`, `staged_count`,
//! `ahead_count` and `behind_count` providers.
//!
//! Every provider takes the repository path explicitly and is a read-only
//! snapshot query: it opens the repository fresh, asks one question, and
//! encodes the answer as a well-formed result record. Every repository-state
//! failure — no repository, no symbolic head, an unresolvable range —
//! degrades to the absent result, never to a crash.
//!
//! The calls into the git library stand behind trusted wrappers; everything
//! decided from their outcomes is verified.

use vstd::prelude::*;
use crate::encoding::NamespaceResult;
use crate::encoding::build_return_value;
use crate::encoding::decimal_chars;
use crate::status::StatusMask;
use crate::status::count_matching;
use crate::status::count_matching_entries;

verus! {

#[verifier::external_type_specification]
#[verifier::external_body]
pub struct ExRepository(git2::Repository);

#[verifier::external_type_specification]
#[verifier::external_body]
pub struct ExReference<'a>(git2::Reference<'a>);

#[verifier::external_type_specification]
#[verifier::external_body]
pub struct ExStatuses<'a>(git2::Statuses<'a>);

#[verifier::external_type_specification]
#[verifier::external_body]
pub struct ExRevwalk<'a>(git2::Revwalk<'a>);

#[verifier::external_type_specification]
#[verifier::external_body]
pub struct ExOid(git2::Oid);

#[verifier::external_type_specification]
#[verifier::external_body]
pub struct ExError(git2::Error);

/// The status words of a status list, one per entry, in the list's order.
pub uninterp spec fn statuses_seq(s: &git2::Statuses) -> Seq<u32>;

/// Relies on git2's `Repository::discover`: walks upward from `path` to
/// the repository containing it, or fails if none encloses it. Whether one
/// is found depends on the disk.
#[verifier::external_body]
fn repo_open(path: &str) -> (r: Option<git2::Repository>) {
    git2::Repository::discover(path).ok()
}

/// Relies on git2's `Repository::head`: the reference `HEAD` points to, or
/// a failure on an unborn head. The outcome depends on repository state.
#[verifier::external_body]
fn repo_head<'a>(repo: &'a git2::Repository) -> (r: Option<git2::Reference<'a>>) {
    repo.head().ok()
}

/// Relies on git2's `Reference::is_branch`: whether the reference is a
/// local branch, which is false for a detached head.
#[verifier::external_body]
fn reference_is_branch(reference: &git2::Reference<'_>) -> (r: bool) {
    reference.is_branch()
}

/// Relies on git2's `Reference::shorthand`: the human-readable short name
/// of the reference, or a failure if the name is not valid text.
#[verifier::external_body]
fn reference_shorthand(reference: &git2::Reference<'_>) -> (r: Option<String>) {
    match reference.shorthand() {
        Ok(name) => Some(name.to_string()),
        Err(_) => None,
    }
}

/// Relies on git2's `Repository::statuses` with its default options: one
/// entry per changed, untracked or ignored path, each entry carrying its
/// status bits. Untracked and ignored entries carry only bits outside the
/// two counting masks, so they never add to a count.
#[verifier::external_body]
fn repo_statuses<'a>(repo: &'a git2::Repository) -> (r: Option<git2::Statuses<'a>>) {
    repo.statuses(None).ok()
}

/// Relies on git2's `Statuses::len`: the count of entries in the list.
#[verifier::external_body]
fn statuses_len(s: &git2::Statuses<'_>) -> (n: usize)
    ensures
        n == statuses_seq(s).len(),
{
    s.len()
}

/// Relies on git2's `Statuses::get`, which is `Some` exactly below `len`,
/// and on `StatusEntry::status` with `Status::bits` for the entry's status
/// word.
#[verifier::external_body]
fn statuses_bits_at(s: &git2::Statuses<'_>, i: usize) -> (b: u32)
    requires
        i < statuses_seq(s).len(),
    ensures
        b == statuses_seq(s)[i as int],
{
    s.get(i).unwrap().status().bits()
}

/// Relies on git2's `Repository::revwalk`: a fresh, empty commit walk.
#[verifier::external_body]
fn repo_revwalk<'a>(repo: &'a git2::Repository) -> (r: Option<git2::Revwalk<'a>>) {
    repo.revwalk().ok()
}

/// Relies on git2's `Revwalk::push_range` with the range written
/// `from..to`: commits reachable from `to` but not from `from`. Whether the
/// two endpoints resolve depends on repository state.
#[verifier::external_body]
fn revwalk_push_range(walk: &mut git2::Revwalk<'_>, from: &str, to: &str) -> (ok: bool) {
    walk.push_range(&format!("{}..{}", from, to)).is_ok()
}

/// Relies on `Iterator::count` for git2's `Revwalk`: the number of commits
/// the walk yields, which depends on the repository's commit graph.
#[verifier::external_body]
fn revwalk_count(walk: git2::Revwalk<'_>) -> (n: usize) {
    walk.count()
}

/// Relies on the `Display` implementation of `usize`: the decimal digits of
/// the value, most significant first, with no sign and no padding.
#[verifier::external_body]
fn usize_to_decimal(n: usize) -> (r: String)
    ensures
        r@ == decimal_chars(n as nat),
{
    format!("{}", n)
}

/// What `branch` returns for each outcome of the symbolic-name lookup: the
/// name when there is one, the absent result when there is none.
pub fn branch_result(name: Option<String>) -> (r: NamespaceResult)
    ensures
        r.wf(),
        name is Some ==> r.exists && r.data == name,
        name is None ==> !r.exists && r.data is None,
{
    match name {
        Some(n) => build_return_value(n),
        None => NamespaceResult::absent(),
    }
}

/// The current branch's short name: present exactly when the repository at
/// `path` exists and `HEAD` is a born, attached local branch whose name is
/// valid text.
pub fn branch(path: &str) -> (r: NamespaceResult)
    ensures
        r.wf(),
{
    match repo_open(path) {
        None => NamespaceResult::absent(),
        Some(repo) => match repo_head(&repo) {
            None => NamespaceResult::absent(),
            Some(head) => {
                if reference_is_branch(&head) {
                    branch_result(reference_shorthand(&head))
                } else {
                    NamespaceResult::absent()
                }
            },
        },
    }
}

/// Reads the status word of every entry of the list, in order.
fn collect_status_bits(s: &git2::Statuses<'_>) -> (v: Vec<u32>)
    ensures
        v@ == statuses_seq(s),
{
    let n = statuses_len(s);
    let mut v: Vec<u32> = Vec::new();
    let mut i: usize = 0;
    while i < n
        invariant
            i <= n,
            n == statuses_seq(s).len(),
            v@ == statuses_seq(s).take(i as int),
        decreases n - i,
    {
        let b = statuses_bits_at(s, i);
        v.push(b);
        proof {
            assert(statuses_seq(s).take(i as int).push(statuses_seq(s)[i as int]) =~= statuses_seq(
                s,
            ).take(i + 1));
        }
        i = i + 1;
    }
    proof {
        assert(statuses_seq(s).take(n as int) =~= statuses_seq(s));
    }
    v
}

/// The exact text a counting provider returns for a given list of entry
/// status words: the decimal form of how many of them the mask selects.
pub fn status_count_value(bits: &Vec<u32>, mask: StatusMask) -> (r: String)
    ensures
        r@ == decimal_chars(count_matching(bits@, mask.bits)),
{
    let n = count_matching_entries(bits, mask);
    usize_to_decimal(n)
}

/// Counts the status entries the mask selects, each entry exactly once.
/// Present exactly when the repository and its status list are readable;
/// the text is then the decimal count of the selected entries.
pub fn count_statuses(path: &str, mask: StatusMask) -> (r: NamespaceResult)
    ensures
        r.wf(),
        r.exists ==> exists|entries: Seq<u32>|
            r.data.unwrap()@ == decimal_chars(#[trigger] count_matching(entries, mask.bits)),
{
    match repo_open(path) {
        None => NamespaceResult::absent(),
        Some(repo) => match repo_statuses(&repo) {
            None => NamespaceResult::absent(),
            Some(statuses) => {
                let bits = collect_status_bits(&statuses);
                let value = status_count_value(&bits, mask);
                let r = build_return_value(value);
                proof {
                    assert(r.data.unwrap()@ == decimal_chars(
                        count_matching(statuses_seq(&statuses), mask.bits),
                    ));
                }
                r
            },
        },
    }
}

/// The number of working-tree changes, as decimal text.
pub fn modified_count(path: &str) -> (r: NamespaceResult)
    ensures
        r.wf(),
        r.exists ==> exists|entries: Seq<u32>|
            r.data.unwrap()@ == decimal_chars(
                #[trigger] count_matching(entries, crate::status::MODIFIED_MASK),
            ),
{
    count_statuses(path, StatusMask::modified())
}

/// The number of index changes, as decimal text.
pub fn staged_count(path: &str) -> (r: NamespaceResult)
    ensures
        r.wf(),
        r.exists ==> exists|entries: Seq<u32>|
            r.data.unwrap()@ == decimal_chars(
                #[trigger] count_matching(entries, crate::status::STAGED_MASK),
            ),
{
    count_statuses(path, StatusMask::staged())
}

/// Counts the commits reachable from `to` but not from `from`: present
/// exactly when the repository exists and the range resolves, and then the
/// decimal form of the walked count.
pub fn count_revs_between_branches(path: &str, from: &str, to: &str) -> (r: NamespaceResult)
    ensures
        r.wf(),
        r.exists ==> exists|n: nat| r.data.unwrap()@ == decimal_chars(n),
{
    match repo_open(path) {
        None => NamespaceResult::absent(),
        Some(repo) => match repo_revwalk(&repo) {
            None => NamespaceResult::absent(),
            Some(mut walk) => {
                if revwalk_push_range(&mut walk, from, to) {
                    let n = revwalk_count(walk);
                    let r = build_return_value(usize_to_decimal(n));
                    proof {
                        assert(r.data.unwrap()@ == decimal_chars(n as nat));
                    }
                    r
                } else {
                    NamespaceResult::absent()
                }
            },
        },
    }
}

/// How far the current branch is ahead of its upstream: the commits
/// reachable from `HEAD` but not from the upstream reference.
pub fn ahead_count(path: &str) -> (r: NamespaceResult)
    ensures
        r.wf(),
        r.exists ==> exists|n: nat| r.data.unwrap()@ == decimal_chars(n),
{
    count_revs_between_branches(path, "@{u}", "HEAD")
}

/// How far the current branch is behind its upstream: the commits
/// reachable from the upstream reference but not from `HEAD`.
pub fn behind_count(path: &str) -> (r: NamespaceResult)
    ensures
        r.wf(),
        r.exists ==> exists|n: nat| r.data.unwrap()@ == decimal_chars(n),
{
    count_revs_between_branches(path, "HEAD", "@{u}")
}

} // verus!
