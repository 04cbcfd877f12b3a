//! Picking the keyboard among the input-event nodes.
//!
//! The nodes are probed in ascending order. A node whose name is exactly
//! the keyboard's is taken at once; the first node whose name merely holds
//! the keyboard's name is kept in reserve and taken if no exact one turns
//! up. Probing itself (does the node exist, can it be opened, what name
//! does it report) is the caller's business: the caller hands in what each
//! probe found.

use vstd::prelude::*;
use vstd::string::StringExecFns;
use crate::error::SupipiError;
use crate::text::{contains, decimal, decimal_string, has_substring, same_text};

verus! {

/// How many nodes are probed: indices 0 up to, not including, this.
pub const CANDIDATE_COUNT: usize = 32;

/// The name the keyboard reports.
pub const TARGET_NAME: &'static str = "KB USB KB";

/// What every node's path starts with; the index follows in decimal.
pub const DEVICE_PATH_PREFIX: &'static str = "/dev/input/event";

/// How a device name relates to the name looked for.
#[derive(Clone, Copy, Debug, PartialEq, Eq, Structural)]
pub enum NameMatch {
    /// The name is the one looked for.
    Exact,
    /// The name holds the one looked for, with something around it.
    Partial,
    /// The name does not hold the one looked for.
    Miss,
}

/// How `name` relates to `target`.
pub open spec fn name_match(name: Seq<char>, target: Seq<char>) -> NameMatch {
    if name == target {
        NameMatch::Exact
    } else if contains(name, target) {
        NameMatch::Partial
    } else {
        NameMatch::Miss
    }
}

/// How a probe's finding relates to the keyboard's name. A node that is
/// missing, cannot be opened or reports no name is a miss.
pub open spec fn report_match(report: Option<Seq<char>>) -> NameMatch {
    match report {
        Some(name) => name_match(name, TARGET_NAME@),
        None => NameMatch::Miss,
    }
}

/// Whether `index` is the first report of the given kind.
pub open spec fn first_of_kind(
    reports: Seq<Option<Seq<char>>>,
    kind: NameMatch,
    index: int,
) -> bool {
    &&& 0 <= index < reports.len()
    &&& report_match(reports[index]) == kind
    &&& forall|j: int| 0 <= j < index ==> report_match(#[trigger] reports[j]) != kind
}

/// Whether some report is of the given kind.
pub open spec fn any_of_kind(reports: Seq<Option<Seq<char>>>, kind: NameMatch) -> bool {
    exists|j: int| 0 <= j < reports.len() && report_match(#[trigger] reports[j]) == kind
}

/// Whether the reports call for the node at `index`: the first exact match
/// if there is any, otherwise the first partial one.
pub open spec fn chosen(reports: Seq<Option<Seq<char>>>, index: int, exact: bool) -> bool {
    if exact {
        first_of_kind(reports, NameMatch::Exact, index)
    } else {
        !any_of_kind(reports, NameMatch::Exact) && first_of_kind(
            reports,
            NameMatch::Partial,
            index,
        )
    }
}

/// The path of the node with the given index.
pub open spec fn device_path_text(index: nat) -> Seq<char> {
    DEVICE_PATH_PREFIX@ + decimal(index)
}

/// A probe's finding as the specifications see it.
pub open spec fn report_of(name: Option<&str>) -> Option<Seq<char>> {
    match name {
        Some(text) => Some(text@),
        None => None,
    }
}

/// The path of the node with the given index.
pub fn device_path(index: usize) -> (path: String)
    ensures
        path@ == device_path_text(index as nat),
{
    let mut path = String::from_str(DEVICE_PATH_PREFIX);
    let digits = decimal_string(index);
    path.append(digits.as_str());
    path
}

/// Tells how `name` relates to `target`.
pub fn classify(name: &str, target: &str) -> (kind: NameMatch)
    ensures
        kind == name_match(name@, target@),
{
    if same_text(name, target) {
        NameMatch::Exact
    } else if has_substring(name, target) {
        NameMatch::Partial
    } else {
        NameMatch::Miss
    }
}

/// The node that was picked.
#[derive(Debug, PartialEq, Eq)]
pub struct Selection {
    /// The node's index.
    pub index: usize,
    /// The name the node reported.
    pub name: String,
    /// The node's path.
    pub path: String,
    /// Whether the name is exactly the keyboard's, or only holds it.
    pub exact: bool,
}

/// A node found to match, kept until the scan is over.
struct Candidate {
    index: usize,
    name: String,
}

/// A scan over the nodes, one probe at a time.
///
/// The scan says which node to probe next and takes what the probe found.
/// It is over once a node with the exact name has been reported or all
/// nodes have been probed.
pub struct Scan {
    probed: usize,
    exact: Option<Candidate>,
    fallback: Option<Candidate>,
    reports: Ghost<Seq<Option<Seq<char>>>>,
}

impl Scan {
    #[verifier::type_invariant]
    spec fn consistent(self) -> bool {
        &&& self.probed == self.reports@.len()
        &&& self.probed <= CANDIDATE_COUNT
        &&& match self.exact {
            Some(found) => first_of_kind(self.reports@, NameMatch::Exact, found.index as int)
                && self.reports@[found.index as int] == Some(found.name@),
            None => !any_of_kind(self.reports@, NameMatch::Exact),
        }
        &&& match self.fallback {
            Some(found) => first_of_kind(self.reports@, NameMatch::Partial, found.index as int)
                && self.reports@[found.index as int] == Some(found.name@),
            None => !any_of_kind(self.reports@, NameMatch::Partial),
        }
    }

    /// What the probes so far have found, in the order they were made.
    pub closed spec fn reports(&self) -> Seq<Option<Seq<char>>> {
        self.reports@
    }

    /// Whether the scan is over.
    pub open spec fn is_over(&self) -> bool {
        self.reports().len() >= CANDIDATE_COUNT || any_of_kind(self.reports(), NameMatch::Exact)
    }

    /// A scan that has probed nothing yet.
    pub fn new() -> (scan: Scan)
        ensures
            scan.reports() == Seq::<Option<Seq<char>>>::empty(),
    {
        Scan { probed: 0, exact: None, fallback: None, reports: Ghost(Seq::empty()) }
    }

    /// The index of the node to probe next, or `None` once the scan is over.
    pub fn next_candidate(&self) -> (next: Option<usize>)
        ensures
            next == if self.is_over() {
                None
            } else {
                Some(self.reports().len() as usize)
            },
            self.reports().len() <= CANDIDATE_COUNT,
    {
        proof {
            use_type_invariant(self);
        }
        if self.exact.is_some() || self.probed >= CANDIDATE_COUNT {
            None
        } else {
            Some(self.probed)
        }
    }

    /// Takes what the probe of the next node found: its name, or `None`
    /// where the node is missing, cannot be opened or reports no name.
    /// Once the scan is over, further reports change nothing.
    pub fn report(self, name: Option<&str>) -> (scan: Scan)
        ensures
            scan.reports() == if self.is_over() {
                self.reports()
            } else {
                self.reports().push(report_of(name))
            },
    {
        proof {
            use_type_invariant(&self);
        }
        if self.exact.is_some() || self.probed >= CANDIDATE_COUNT {
            return self;
        }
        let index = self.probed;
        let ghost after = self.reports@.push(report_of(name));
        let mut exact = self.exact;
        let mut fallback = self.fallback;
        match name {
            Some(text) => match classify(text, TARGET_NAME) {
                NameMatch::Exact => {
                    exact = Some(Candidate { index, name: String::from_str(text) });
                },
                NameMatch::Partial => {
                    if fallback.is_none() {
                        fallback = Some(Candidate { index, name: String::from_str(text) });
                    }
                },
                NameMatch::Miss => {},
            },
            None => {},
        }
        Scan { probed: index + 1, exact, fallback, reports: Ghost(after) }
    }

    /// Ends the scan and names the node it settled on.
    pub fn finish(self) -> (outcome: Result<Selection, SupipiError>)
        ensures
            outcome is Ok <==> any_of_kind(self.reports(), NameMatch::Exact) || any_of_kind(
                self.reports(),
                NameMatch::Partial,
            ),
            match outcome {
                Ok(selection) => {
                    &&& chosen(self.reports(), selection.index as int, selection.exact)
                    &&& self.reports()[selection.index as int] == Some(selection.name@)
                    &&& selection.path@ == device_path_text(selection.index as nat)
                },
                Err(error) => error == SupipiError::NoKeyboard,
            },
    {
        proof {
            use_type_invariant(&self);
        }
        match self.exact {
            Some(found) => Ok(
                Selection {
                    index: found.index,
                    name: found.name,
                    path: device_path(found.index),
                    exact: true,
                },
            ),
            None => match self.fallback {
                Some(found) => Ok(
                    Selection {
                        index: found.index,
                        name: found.name,
                        path: device_path(found.index),
                        exact: false,
                    },
                ),
                None => Err(SupipiError::NoKeyboard),
            },
        }
    }
}

/// What probing every node would find, given the names in index order:
/// `names[i]` for node `i`, and nothing for a node past the end of `names`.
/// Entries from `CANDIDATE_COUNT` on stand for no node and are left out.
pub open spec fn candidate_reports(names: Seq<Option<String>>) -> Seq<Option<Seq<char>>> {
    Seq::new(
        CANDIDATE_COUNT as nat,
        |i: int|
            if i < names.len() {
                match names[i] {
                    Some(name) => Some(name@),
                    None => None,
                }
            } else {
                None
            },
    )
}

/// Runs a whole scan over findings known beforehand and names the node it
/// settles on: the lowest node whose name is exactly the keyboard's; if
/// there is none, the lowest node whose name holds the keyboard's; if
/// there is none either, the `NoKeyboard` error.
pub fn resolve(names: &Vec<Option<String>>) -> (outcome: Result<Selection, SupipiError>)
    ensures
        outcome is Ok <==> any_of_kind(candidate_reports(names@), NameMatch::Exact) || any_of_kind(
            candidate_reports(names@),
            NameMatch::Partial,
        ),
        match outcome {
            Ok(selection) => {
                &&& chosen(candidate_reports(names@), selection.index as int, selection.exact)
                &&& candidate_reports(names@)[selection.index as int] == Some(selection.name@)
                &&& selection.path@ == device_path_text(selection.index as nat)
            },
            Err(error) => error == SupipiError::NoKeyboard,
        },
{
    let ghost all = candidate_reports(names@);
    let mut scan = Scan::new();
    loop
        invariant
            all == candidate_reports(names@),
            scan.reports().len() <= all.len(),
            scan.reports() == all.take(scan.reports().len() as int),
        ensures
            scan.is_over(),
        decreases all.len() - scan.reports().len(),
    {
        match scan.next_candidate() {
            None => {
                break ;
            },
            Some(index) => {
                let name: Option<&str> = if index < names.len() {
                    match &names[index] {
                        Some(text) => Some(text.as_str()),
                        None => None,
                    }
                } else {
                    None
                };
                scan = scan.report(name);
            },
        }
    }
    assert(forall|j: int| 0 <= j < scan.reports().len() ==> scan.reports()[j] == all[j]);
    scan.finish()
}

/// An exact match wins wherever it stands: if some node reports exactly the
/// keyboard's name, the first such node is the one chosen, whatever partial
/// matches come before or after it.
pub proof fn lemma_exact_match_wins(
    reports: Seq<Option<Seq<char>>>,
    first_exact: int,
    index: int,
    exact: bool,
)
    requires
        first_of_kind(reports, NameMatch::Exact, first_exact),
    ensures
        chosen(reports, index, exact) <==> index == first_exact && exact,
{
}

/// Without an exact match the first partial match is chosen, and no later
/// one.
pub proof fn lemma_first_partial_match_is_fallback(
    reports: Seq<Option<Seq<char>>>,
    first_partial: int,
    index: int,
    exact: bool,
)
    requires
        !any_of_kind(reports, NameMatch::Exact),
        first_of_kind(reports, NameMatch::Partial, first_partial),
    ensures
        chosen(reports, index, exact) <==> index == first_partial && !exact,
{
}

/// Where no node matches, exactly or partially, none is chosen.
pub proof fn lemma_no_match_no_choice(reports: Seq<Option<Seq<char>>>, index: int, exact: bool)
    requires
        !any_of_kind(reports, NameMatch::Exact),
        !any_of_kind(reports, NameMatch::Partial),
    ensures
        !chosen(reports, index, exact),
{
}

/// The reports leave no freedom: they call for at most one node.
pub proof fn lemma_choice_is_unique(
    reports: Seq<Option<Seq<char>>>,
    index: int,
    exact: bool,
    other_index: int,
    other_exact: bool,
)
    requires
        chosen(reports, index, exact),
        chosen(reports, other_index, other_exact),
    ensures
        index == other_index,
        exact == other_exact,
{
}

} // verus!
