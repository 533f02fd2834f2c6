//! Choosing the controller's port among the ports of the machine.

use vstd::prelude::*;
use regex::Regex;

verus! {

/// What is known of one port.
#[derive(Clone, Copy, Debug, PartialEq, Eq, Structural)]
pub enum Verdict {
    /// The port's name could not be read.
    Unreadable,
    /// The description is no valid pattern.
    Invalid,
    /// The port's name does not match the description.
    Miss,
    /// The port's name matches the description.
    Hit,
}

/// Why no port was chosen.
#[derive(Clone, Copy, Debug, PartialEq, Eq, Structural)]
pub enum PortError {
    /// The name of the port at this index could not be read, and no port
    /// before it matched.
    Unreadable(usize),
    /// The description is no valid pattern.
    BadPattern,
    /// No port matches the description.
    NotFound,
}

/// Whether `text` matches the regular expression `pattern` anywhere;
/// `None` where `pattern` does not compile.
pub uninterp spec fn regex_verdict(pattern: Seq<char>, text: Seq<char>) -> Option<bool>;

/// Whether every port before index `i` is a miss.
pub open spec fn misses_before(verdicts: Seq<Verdict>, i: int) -> bool {
    forall|j: int| 0 <= j < i ==> #[trigger] verdicts[j] == Verdict::Miss
}

/// Whether `r` is the choice among ports with these verdicts: the first
/// port that is not a miss decides, by being a hit or by what is wrong
/// with it; where all miss, nothing is found.
pub open spec fn chosen(verdicts: Seq<Verdict>, r: Result<usize, PortError>) -> bool {
    match r {
        Ok(i) => i < verdicts.len() && verdicts[i as int] == Verdict::Hit && misses_before(
            verdicts,
            i as int,
        ),
        Err(PortError::Unreadable(i)) => i < verdicts.len() && verdicts[i as int]
            == Verdict::Unreadable && misses_before(verdicts, i as int),
        Err(PortError::BadPattern) => exists|i: int|
            0 <= i < verdicts.len() && #[trigger] verdicts[i] == Verdict::Invalid && misses_before(
                verdicts,
                i,
            ),
        Err(PortError::NotFound) => misses_before(verdicts, verdicts.len() as int),
    }
}

/// The verdict on the port with the given name under the description
/// `pattern`.
pub open spec fn verdict_of(name: Option<String>, pattern: Seq<char>) -> Verdict {
    match name {
        None => Verdict::Unreadable,
        Some(text) => match regex_verdict(pattern, text@) {
            None => Verdict::Invalid,
            Some(true) => Verdict::Hit,
            Some(false) => Verdict::Miss,
        },
    }
}

/// The verdicts on ports of the given names under the description
/// `pattern`.
pub open spec fn verdicts_of(names: Seq<Option<String>>, pattern: Seq<char>) -> Seq<Verdict> {
    names.map_values(|name: Option<String>| verdict_of(name, pattern))
}

/// Tests `text` against the regular expression `pattern`.
///
/// Calls `regex::Regex::new` and, where the pattern compiles,
/// `regex::Regex::is_match`. The contract claims only that the answer is
/// a function of the two strings.
#[verifier::external_body]
fn probe(pattern: &str, text: &str) -> (r: Option<bool>)
    ensures
        r == regex_verdict(pattern@, text@),
{
    match Regex::new(pattern) {
        Ok(re) => Some(re.is_match(text)),
        Err(_) => None,
    }
}

/// Chooses among ports with the given verdicts.
pub fn pick_port(verdicts: &Vec<Verdict>) -> (r: Result<usize, PortError>)
    ensures
        chosen(verdicts@, r),
{
    let mut i: usize = 0;
    while i < verdicts.len()
        invariant
            i <= verdicts@.len(),
            misses_before(verdicts@, i as int),
        decreases verdicts@.len() - i,
    {
        match verdicts[i] {
            Verdict::Hit => {
                return Ok(i);
            },
            Verdict::Unreadable => {
                return Err(PortError::Unreadable(i));
            },
            Verdict::Invalid => {
                return Err(PortError::BadPattern);
            },
            Verdict::Miss => {},
        }
        i = i + 1;
    }
    Err(PortError::NotFound)
}

/// Chooses the first port whose name matches the description `descr`, a
/// regular expression. `names` holds the ports' names in their order,
/// `None` for a name that could not be read.
pub fn select_port(names: &Vec<Option<String>>, descr: &str) -> (r: Result<usize, PortError>)
    ensures
        chosen(verdicts_of(names@, descr@), r),
{
    let mut verdicts: Vec<Verdict> = Vec::new();
    let mut i: usize = 0;
    while i < names.len()
        invariant
            i <= names@.len(),
            verdicts@ == verdicts_of(names@.take(i as int), descr@),
        decreases names@.len() - i,
    {
        let verdict: Verdict = match &names[i] {
            None => Verdict::Unreadable,
            Some(text) => match probe(descr, text.as_str()) {
                None => Verdict::Invalid,
                Some(true) => Verdict::Hit,
                Some(false) => Verdict::Miss,
            },
        };
        verdicts.push(verdict);
        proof {
            assert(names@.take(i + 1) =~= names@.take(i as int).push(names@[i as int]));
            assert(verdicts@ =~= verdicts_of(names@.take(i + 1), descr@));
        }
        i = i + 1;
    }
    proof {
        assert(names@.take(i as int) =~= names@);
    }
    pick_port(&verdicts)
}

/// The index of the port that decided on `r`, or the number of ports
/// where none did.
pub open spec fn decisive(verdicts: Seq<Verdict>, r: Result<usize, PortError>) -> int {
    match r {
        Ok(i) => i as int,
        Err(PortError::Unreadable(i)) => i as int,
        Err(PortError::BadPattern) => choose|i: int|
            0 <= i < verdicts.len() && #[trigger] verdicts[i] == Verdict::Invalid && misses_before(
                verdicts,
                i,
            ),
        Err(PortError::NotFound) => verdicts.len() as int,
    }
}

/// The choice is unique: two results that are both the choice among the
/// same ports are the same result.
pub proof fn lemma_choice_unique(
    verdicts: Seq<Verdict>,
    a: Result<usize, PortError>,
    b: Result<usize, PortError>,
)
    requires
        chosen(verdicts, a),
        chosen(verdicts, b),
    ensures
        a == b,
{
    let i = decisive(verdicts, a);
    let j = decisive(verdicts, b);
    if i < j {
        assert(verdicts[i] == Verdict::Miss);
    } else if j < i {
        assert(verdicts[j] == Verdict::Miss);
    }
}

} // verus!
