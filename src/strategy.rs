//! Strategy resolution: configured strategy names become an ordered,
//! duplicate-free, never-empty plan of delivery mechanisms.
use vstd::prelude::*;

use crate::text::{lower_of, lowercase, str_equals};

verus! {

/// The delivery mechanisms, in no particular order.
#[derive(Debug, Clone, Copy, PartialEq, Eq, Structural)]
pub enum InjectionStrategy {
    /// Structured write through the accessibility API.
    UIA,
    /// Paste through a clipboard transaction.
    Clipboard,
    /// Synthetic keystrokes, one per UTF-16 unit.
    SendInput,
}

/// The strategy a (lower-case) configured name stands for, if any.
pub open spec fn strategy_of_name(name: Seq<char>) -> Option<InjectionStrategy> {
    if name == "uia"@ || name == "textpattern_enhanced"@ {
        Some(InjectionStrategy::UIA)
    } else if name == "clipboard"@ {
        Some(InjectionStrategy::Clipboard)
    } else if name == "sendinput"@ {
        Some(InjectionStrategy::SendInput)
    } else {
        None
    }
}

/// The known strategies of `names`, each kept at its first occurrence.
pub open spec fn known_distinct(names: Seq<Seq<char>>) -> Seq<InjectionStrategy>
    decreases names.len(),
{
    if names.len() == 0 {
        Seq::empty()
    } else {
        let prev = known_distinct(names.drop_last());
        match strategy_of_name(names.last()) {
            Some(v) => if prev.contains(v) {
                prev
            } else {
                prev.push(v)
            },
            None => prev,
        }
    }
}

/// The plan for a list of lower-case names: its known strategies without
/// repeats, or the accessibility write alone when none is known.
pub open spec fn plan_of(names: Seq<Seq<char>>) -> Seq<InjectionStrategy> {
    let d = known_distinct(names);
    if d.len() == 0 {
        seq![InjectionStrategy::UIA]
    } else {
        d
    }
}

/// The views of a list of strings.
pub open spec fn views_of(v: Seq<String>) -> Seq<Seq<char>> {
    v.map_values(|s: String| s@)
}

/// The lower-case forms of a list of strings.
pub open spec fn lowered(v: Seq<String>) -> Seq<Seq<char>> {
    v.map_values(|s: String| lower_of(s@))
}

/// Maps one lower-case name to its strategy.
pub fn strategy_from_name(name: &str) -> (r: Option<InjectionStrategy>)
    ensures
        r == strategy_of_name(name@),
{
    if str_equals(name, "uia") || str_equals(name, "textpattern_enhanced") {
        Some(InjectionStrategy::UIA)
    } else if str_equals(name, "clipboard") {
        Some(InjectionStrategy::Clipboard)
    } else if str_equals(name, "sendinput") {
        Some(InjectionStrategy::SendInput)
    } else {
        None
    }
}

impl InjectionStrategy {
    /// The name under which a successful delivery is reported.
    pub fn name(&self) -> (r: &'static str)
        ensures
            r@ == strategy_display_name(*self),
    {
        match self {
            InjectionStrategy::UIA => "UIA",
            InjectionStrategy::Clipboard => "Clipboard",
            InjectionStrategy::SendInput => "SendInput",
        }
    }
}

/// The reported name of each strategy.
pub open spec fn strategy_display_name(s: InjectionStrategy) -> Seq<char> {
    match s {
        InjectionStrategy::UIA => "UIA"@,
        InjectionStrategy::Clipboard => "Clipboard"@,
        InjectionStrategy::SendInput => "SendInput"@,
    }
}

fn contains_strategy(v: &Vec<InjectionStrategy>, s: InjectionStrategy) -> (r: bool)
    ensures
        r == v@.contains(s),
{
    let mut i: usize = 0;
    while i < v.len()
        invariant
            i <= v@.len(),
            forall|k: int| 0 <= k < i ==> v@[k] != s,
        decreases v@.len() - i,
    {
        if v[i] == s {
            assert(v@[i as int] == s);
            return true;
        }
        i = i + 1;
    }
    false
}

/// Resolves a list of lower-case strategy names into a plan.
pub fn resolve_lowered(names: &Vec<String>) -> (r: Vec<InjectionStrategy>)
    ensures
        r@ == plan_of(views_of(names@)),
{
    let ghost all = views_of(names@);
    let mut mapped: Vec<InjectionStrategy> = Vec::new();
    let mut i: usize = 0;
    while i < names.len()
        invariant
            i <= names@.len(),
            all == views_of(names@),
            mapped@ == known_distinct(all.take(i as int)),
        decreases names@.len() - i,
    {
        assert(all.take(i as int + 1).drop_last() =~= all.take(i as int));
        assert(all.take(i as int + 1).last() == names@[i as int]@);
        if let Some(v) = strategy_from_name(names[i].as_str()) {
            if !contains_strategy(&mapped, v) {
                mapped.push(v);
            }
        }
        i = i + 1;
    }
    assert(all.take(names@.len() as int) =~= all);
    if mapped.len() == 0 {
        mapped.push(InjectionStrategy::UIA);
    }
    mapped
}

/// Lower-cases every name of a list.
pub fn lowercase_all(names: &Vec<String>) -> (r: Vec<String>)
    ensures
        views_of(r@) == lowered(names@),
{
    let mut out: Vec<String> = Vec::new();
    let mut i: usize = 0;
    while i < names.len()
        invariant
            i <= names@.len(),
            out@.len() == i,
            forall|k: int| 0 <= k < i ==> #[trigger] out@[k]@ == lower_of(names@[k]@),
        decreases names@.len() - i,
    {
        let l = lowercase(names[i].as_str());
        out.push(l);
        i = i + 1;
    }
    assert(views_of(out@) =~= lowered(names@));
    out
}

/// Resolves configured strategy names, compared without regard to case,
/// into a plan.
pub fn resolve_names(names: &Vec<String>) -> (r: Vec<InjectionStrategy>)
    ensures
        r@ == plan_of(lowered(names@)),
{
    let low = lowercase_all(names);
    resolve_lowered(&low)
}

/// No strategy appears twice in a sequence.
pub open spec fn no_repeats(s: Seq<InjectionStrategy>) -> bool {
    forall|i: int, j: int| 0 <= i < j < s.len() ==> s[i] != s[j]
}

proof fn lemma_known_distinct_no_repeats(names: Seq<Seq<char>>)
    ensures
        no_repeats(known_distinct(names)),
    decreases names.len(),
{
    if names.len() > 0 {
        lemma_known_distinct_no_repeats(names.drop_last());
    }
}

/// Every plan is non-empty and holds no strategy twice, whatever the names.
pub proof fn lemma_plan_nonempty_distinct(names: Seq<Seq<char>>)
    ensures
        plan_of(names).len() > 0,
        no_repeats(plan_of(names)),
{
    lemma_known_distinct_no_repeats(names);
}

proof fn lemma_known_distinct_first(names: Seq<Seq<char>>, v: InjectionStrategy)
    requires
        names.len() > 0,
        strategy_of_name(names[0]) == Some(v),
    ensures
        known_distinct(names).len() > 0,
        known_distinct(names)[0] == v,
    decreases names.len(),
{
    let prev = known_distinct(names.drop_last());
    if names.len() > 1 {
        assert(names.drop_last()[0] == names[0]);
        lemma_known_distinct_first(names.drop_last(), v);
        match strategy_of_name(names.last()) {
            Some(w) => if !prev.contains(w) {
                assert(prev.push(w)[0] == prev[0]);
            },
            None => {},
        }
    } else {
        assert(names.drop_last().len() == 0);
        assert(prev.len() == 0);
        assert(names.last() == names[0]);
        assert(!prev.contains(v));
        assert(prev.push(v)[0] == v);
    }
}

/// When the first name maps to a known strategy, the plan starts with it.
pub proof fn lemma_plan_starts_with_primary(primary: Seq<char>, fallback: Seq<Seq<char>>)
    requires
        strategy_of_name(primary) is Some,
    ensures
        plan_of(seq![primary] + fallback)[0] == strategy_of_name(primary)->Some_0,
{
    let names = seq![primary] + fallback;
    assert(names[0] == primary);
    lemma_known_distinct_first(names, strategy_of_name(primary)->Some_0);
}

} // verus!
