//! Mood classification: the aggregate health of the reported services,
//! derived from the color field of each service status record.

use vstd::prelude::*;
use vstd::string::*;

verus! {

/// The coarse-grained health classification shown on the display.
/// `Unknown` is both the initial value and the fallback whenever a
/// status report cannot be obtained or understood.
#[derive(Clone, Copy, Debug, PartialEq, Eq, Structural)]
pub enum Mood {
    Happy,
    Neutral,
    Sad,
    Unknown,
}

/// One reported service: its name and its color-coded health.
#[derive(Clone, Debug)]
pub struct ServiceStatus {
    pub name: String,
    pub color: String,
}

/// The mathematical model of a [`ServiceStatus`]: both fields as
/// character sequences.
#[verifier::ext_equal]
pub struct StatusView {
    pub name: Seq<char>,
    pub color: Seq<char>,
}

impl View for ServiceStatus {
    type V = StatusView;

    open spec fn view(&self) -> StatusView {
        StatusView { name: self.name@, color: self.color@ }
    }
}

/// The models of a sequence of status records.
pub open spec fn views_of(l: Seq<ServiceStatus>) -> Seq<StatusView> {
    l.map_values(|s: ServiceStatus| s@)
}

pub open spec fn is_red(s: StatusView) -> bool {
    s.color == "red"@
}

pub open spec fn is_blue(s: StatusView) -> bool {
    s.color == "blue"@
}

/// At least one record reports red.
pub open spec fn has_red(l: Seq<StatusView>) -> bool {
    exists|k: int| 0 <= k < l.len() && is_red(l[k])
}

/// Every record reports blue (vacuously true of an empty list).
pub open spec fn all_blue(l: Seq<StatusView>) -> bool {
    forall|k: int| 0 <= k < l.len() ==> is_blue(l[k])
}

/// The mood a list of status records maps to: red anywhere wins and
/// gives `Sad`; otherwise all blue gives `Happy`; anything else gives
/// `Neutral`. An empty list is "all blue" vacuously and so gives
/// `Happy`.
pub open spec fn derived_mood(l: Seq<StatusView>) -> Mood {
    if has_red(l) {
        Mood::Sad
    } else if all_blue(l) {
        Mood::Happy
    } else {
        Mood::Neutral
    }
}

/// Classifies a list of service statuses into a mood.
pub fn derive_mood(statuses: &Vec<ServiceStatus>) -> (m: Mood)
    ensures
        m == derived_mood(views_of(statuses@)),
{
    let ghost vl = views_of(statuses@);
    let mut saw_red = false;
    let mut blue_so_far = true;
    let mut idx: usize = 0;
    while idx < statuses.len()
        invariant
            0 <= idx <= statuses@.len(),
            vl == views_of(statuses@),
            vl.len() == statuses@.len(),
            saw_red == has_red(vl.take(idx as int)),
            blue_so_far == all_blue(vl.take(idx as int)),
        decreases statuses@.len() - idx,
    {
        let red_here = statuses[idx].color == String::from_str("red");
        let blue_here = statuses[idx].color == String::from_str("blue");
        proof {
            let t0 = vl.take(idx as int);
            let t1 = vl.take(idx as int + 1);
            assert(vl[idx as int] == statuses@[idx as int]@);
            assert(forall|k: int| 0 <= k < t1.len() ==> t1[k] == vl[k]);
            if has_red(t0) {
                let k = choose|k: int| 0 <= k < t0.len() && is_red(t0[k]);
                assert(is_red(t1[k]));
            }
            if red_here {
                assert(is_red(t1[idx as int]));
            }
            if has_red(t1) {
                let k = choose|k: int| 0 <= k < t1.len() && is_red(t1[k]);
                if k < idx as int {
                    assert(is_red(t0[k]));
                } else {
                    assert(k == idx as int);
                }
            }
            if all_blue(t0) && blue_here {
                assert forall|k: int| 0 <= k < t1.len() implies is_blue(t1[k]) by {
                    if k < idx as int {
                        assert(is_blue(t0[k]));
                    }
                }
            }
            if all_blue(t1) {
                assert forall|k: int| 0 <= k < t0.len() implies is_blue(t0[k]) by {
                    assert(is_blue(t1[k]));
                }
                assert(is_blue(t1[idx as int]));
            }
        }
        if red_here {
            saw_red = true;
        }
        if !blue_here {
            blue_so_far = false;
        }
        idx = idx + 1;
    }
    proof {
        assert(vl.take(idx as int) =~= vl);
    }
    if saw_red {
        Mood::Sad
    } else if blue_so_far {
        Mood::Happy
    } else {
        Mood::Neutral
    }
}

/// The mood one response body maps to: the derived mood of the parsed
/// records, or `Unknown` where the body does not match the grammar.
pub open spec fn mood_of_body(s: Seq<char>) -> Mood {
    match crate::parse::spec_statuses(s) {
        Some(l) => derived_mood(l),
        None => Mood::Unknown,
    }
}

impl Mood {
    /// One polling cycle's classification, given the fetched body, or
    /// `None` where the fetch itself failed. Every failure — transport
    /// or parse — yields `Unknown`.
    pub fn load(body: Option<&String>) -> (m: Mood)
        ensures
            m == (match body {
                None => Mood::Unknown,
                Some(b) => mood_of_body(b@),
            }),
    {
        match body {
            None => Mood::Unknown,
            Some(b) => {
                match crate::parse::parse_body(b.as_str()) {
                    Some(statuses) => derive_mood(&statuses),
                    None => Mood::Unknown,
                }
            },
        }
    }
}

/// A list with a red record anywhere maps to `Sad`, whatever the other
/// records report: red has priority over "all blue".
pub proof fn lemma_red_yields_sad(l: Seq<StatusView>)
    requires
        has_red(l),
    ensures
        derived_mood(l) == Mood::Sad,
{
}

/// A non-empty list in which every record reports blue maps to
/// `Happy`: a record cannot report blue and red at once, so none of
/// these lists has a red record.
pub proof fn lemma_all_blue_yields_happy(l: Seq<StatusView>)
    requires
        l.len() > 0,
        all_blue(l),
    ensures
        derived_mood(l) == Mood::Happy,
{
    if has_red(l) {
        let k = choose|k: int| 0 <= k < l.len() && is_red(l[k]);
        assert(is_blue(l[k]));
        reveal_strlit("red");
        reveal_strlit("blue");
        assert("red"@.len() == 3 && "blue"@.len() == 4);
    }
}

/// A list with no red record and at least one record that is neither
/// red nor blue maps to `Neutral`.
pub proof fn lemma_off_color_yields_neutral(l: Seq<StatusView>, k: int)
    requires
        !has_red(l),
        0 <= k < l.len(),
        !is_red(l[k]),
        !is_blue(l[k]),
    ensures
        derived_mood(l) == Mood::Neutral,
{
    assert(!is_blue(l[k]));
}

/// The empty list satisfies "all records blue" vacuously, so it maps to
/// `Happy`: no services reporting reads as nothing to worry about.
pub proof fn lemma_empty_yields_happy()
    ensures
        derived_mood(Seq::<StatusView>::empty()) == Mood::Happy,
{
}

} // verus!
