//! The business-rules page: rules grouped by category in a fixed order, the
//! inline editor's state, and how a saved rule replaces the old one.

use vstd::prelude::*;
use crate::api::rules::{rule_category, BusinessRule, UpdateRuleBody};
use crate::text::{non_blank, non_blank_exec, str_eq};

verus! {

// ── Grouping ─────────────────────────────────────────────────────────────────

/// The categories, in the order the page shows them.
pub open spec fn category_order() -> Seq<Seq<char>> {
    seq![
        "Orders & Refunds"@,
        "Security & Sessions"@,
        "Content Quality"@,
        "Data Ingestion"@,
        "General"@,
    ]
}

/// The category of each rule.
pub open spec fn categories_of(rules: Seq<BusinessRule>) -> Seq<Seq<char>> {
    rules.map_values(|r: BusinessRule| rule_category(r.rule_key@))
}

/// The positions `i < n` whose category is `cat`, increasing.
pub open spec fn indices_of(cats: Seq<Seq<char>>, cat: Seq<char>, n: int) -> Seq<usize>
    decreases n,
{
    if n <= 0 {
        Seq::empty()
    } else if cats[n - 1] == cat {
        indices_of(cats, cat, n - 1).push((n - 1) as usize)
    } else {
        indices_of(cats, cat, n - 1)
    }
}

/// The groups of the first `k` categories in the page's order that have at
/// least one rule: the category and the positions of its rules.
pub open spec fn groups_upto(cats: Seq<Seq<char>>, k: int) -> Seq<(Seq<char>, Seq<usize>)>
    decreases k,
{
    if k <= 0 {
        Seq::empty()
    } else {
        let c = category_order()[k - 1];
        let ix = indices_of(cats, c, cats.len() as int);
        if ix.len() > 0 {
            groups_upto(cats, k - 1).push((c, ix))
        } else {
            groups_upto(cats, k - 1)
        }
    }
}

/// The page's groups: each category in order with the positions of its
/// rules, categories without rules left out.
pub open spec fn group_by_category_spec(rules: Seq<BusinessRule>) -> Seq<(Seq<char>, Seq<usize>)> {
    groups_upto(categories_of(rules), 5)
}

/// One group: a category and the positions of its rules in the list.
#[derive(Debug, Clone, PartialEq)]
pub struct RuleGroup {
    pub category: &'static str,
    pub indices: Vec<usize>,
}

fn category_at(k: usize) -> (r: &'static str)
    requires
        k < 5,
    ensures
        r@ == category_order()[k as int],
{
    match k {
        0 => "Orders & Refunds",
        1 => "Security & Sessions",
        2 => "Content Quality",
        3 => "Data Ingestion",
        _ => "General",
    }
}

/// The rules grouped for display.
pub fn group_by_category(rules: &Vec<BusinessRule>) -> (r: Vec<RuleGroup>)
    ensures
        r@.map_values(|g: RuleGroup| (g.category@, g.indices@)) == group_by_category_spec(rules@),
{
    let ghost cats = categories_of(rules@);
    let mut cs: Vec<&'static str> = Vec::new();
    let mut j: usize = 0;
    while j < rules.len()
        invariant
            j <= rules@.len(),
            cats == categories_of(rules@),
            cs@.len() == j,
            forall|i: int| 0 <= i < j ==> (#[trigger] cs@[i])@ == cats[i],
        decreases rules@.len() - j,
    {
        let c = rules[j].category();
        cs.push(c);
        j = j + 1;
    }
    let mut out: Vec<RuleGroup> = Vec::new();
    let mut k: usize = 0;
    while k < 5
        invariant
            k <= 5,
            cats == categories_of(rules@),
            cs@.len() == cats.len(),
            forall|i: int| 0 <= i < cs@.len() ==> (#[trigger] cs@[i])@ == cats[i],
            out@.map_values(|g: RuleGroup| (g.category@, g.indices@)) == groups_upto(cats, k as int),
        decreases 5 - k,
    {
        let cat = category_at(k);
        let mut ix: Vec<usize> = Vec::new();
        let mut i: usize = 0;
        while i < cs.len()
            invariant
                i <= cs@.len(),
                cs@.len() == cats.len(),
                forall|t: int| 0 <= t < cs@.len() ==> (#[trigger] cs@[t])@ == cats[t],
                ix@ == indices_of(cats, cat@, i as int),
            decreases cs@.len() - i,
        {
            if str_eq(cs[i], cat) {
                ix.push(i);
            }
            i = i + 1;
        }
        let ghost before = out@.map_values(|g: RuleGroup| (g.category@, g.indices@));
        if ix.len() > 0 {
            out.push(RuleGroup { category: cat, indices: ix });
            assert(out@.map_values(|g: RuleGroup| (g.category@, g.indices@)) =~= before.push(
                (cat@, ix@),
            ));
        }
        k = k + 1;
    }
    out
}

proof fn lemma_indices_member(cats: Seq<Seq<char>>, cat: Seq<char>, n: int, i: int)
    requires
        0 <= i < n <= cats.len(),
        n <= usize::MAX,
    ensures
        indices_of(cats, cat, n).contains(i as usize) <==> cats[i] == cat,
    decreases n,
{
    let s = indices_of(cats, cat, n);
    if i == n - 1 {
        lemma_indices_below(cats, cat, n - 1);
        if cats[i] == cat {
            assert(s[s.len() - 1] == i as usize);
        } else {
            if s.contains(i as usize) {
                let k = choose|k: int| 0 <= k < s.len() && s[k] == i as usize;
                assert(indices_of(cats, cat, n - 1)[k] < n - 1);
            }
        }
    } else {
        lemma_indices_member(cats, cat, n - 1, i);
        let p = indices_of(cats, cat, n - 1);
        if p.contains(i as usize) {
            let k = choose|k: int| 0 <= k < p.len() && p[k] == i as usize;
            if cats[n - 1] == cat {
                assert(s[k] == i as usize);
            } else {
                assert(s[k] == i as usize);
            }
        }
        if s.contains(i as usize) {
            let k = choose|k: int| 0 <= k < s.len() && s[k] == i as usize;
            if cats[n - 1] == cat && k == s.len() - 1 {
                assert(false);
            } else {
                assert(p[k] == i as usize);
            }
        }
    }
}

proof fn lemma_indices_below(cats: Seq<Seq<char>>, cat: Seq<char>, n: int)
    requires
        0 <= n <= cats.len(),
        n <= usize::MAX,
    ensures
        forall|k: int|
            0 <= k < indices_of(cats, cat, n).len() ==> 0 <= #[trigger] indices_of(cats, cat, n)[k] < n,
    decreases n,
{
    if n > 0 {
        lemma_indices_below(cats, cat, n - 1);
        let p = indices_of(cats, cat, n - 1);
        let s = indices_of(cats, cat, n);
        assert forall|k: int| 0 <= k < s.len() implies 0 <= #[trigger] s[k] < n by {
            if k < p.len() {
                assert(s[k] == p[k]);
            }
        }
    }
}

/// Every rule falls in exactly one group: the one of its own category. Its
/// position is among that category's positions and no other's.
pub proof fn law_groups_partition_rules(rules: Seq<BusinessRule>, i: int, cat: Seq<char>)
    requires
        0 <= i < rules.len() <= usize::MAX,
    ensures
        indices_of(categories_of(rules), cat, rules.len() as int).contains(i as usize) <==> cat
            == rule_category(rules[i].rule_key@),
{
    lemma_indices_member(categories_of(rules), cat, rules.len() as int, i);
}

// ── Editor ───────────────────────────────────────────────────────────────────

/// The inline editor: the rule being edited with its draft value, the save
/// error, and the rule just saved.
#[derive(Debug, Clone, PartialEq)]
pub struct RuleEditor {
    pub editing_key: Option<String>,
    pub value: String,
    pub error: Option<String>,
    pub saved_key: Option<String>,
}

impl RuleEditor {
    pub fn new() -> (r: RuleEditor)
        ensures
            r.editing_key is None && r.value@.len() == 0 && r.error is None && r.saved_key is None,
    {
        RuleEditor { editing_key: None, value: String::new(), error: None, saved_key: None }
    }

    /// "Edit" on a rule: its value becomes the draft.
    pub fn start(&mut self, key: String, value: String)
        ensures
            *final(self) == (RuleEditor {
                editing_key: Some(key),
                value,
                error: None,
                saved_key: None,
            }),
    {
        self.editing_key = Some(key);
        self.value = value;
        self.error = None;
        self.saved_key = None;
    }

    /// "Cancel" or Escape.
    pub fn cancel(&mut self)
        ensures
            *final(self) == (RuleEditor { editing_key: None, error: None, ..*old(self) }),
    {
        self.editing_key = None;
        self.error = None;
    }

    /// "Save" or Enter: the body to send, or nothing when the trimmed draft
    /// is empty.
    pub fn save_body(&self) -> (r: Option<UpdateRuleBody>)
        ensures
            match r {
                Some(b) => non_blank(self.value@) == Some(b.value@),
                None => non_blank(self.value@) is None,
            },
    {
        match non_blank_exec(self.value.as_str()) {
            Some(v) => Some(UpdateRuleBody { value: v }),
            None => None,
        }
    }

    /// The save succeeded for `key`.
    pub fn saved(&mut self, key: String)
        ensures
            *final(self) == (RuleEditor {
                editing_key: None,
                error: None,
                saved_key: Some(key),
                value: old(self).value,
            }),
    {
        self.editing_key = None;
        self.error = None;
        self.saved_key = Some(key);
    }

    /// The save failed.
    pub fn failed(&mut self, message: String)
        ensures
            *final(self) == (RuleEditor { error: Some(message), ..*old(self) }),
    {
        self.error = Some(message);
    }
}

/// What a key in the editor does.
#[derive(Debug, Clone, Copy, PartialEq, Eq, Structural)]
pub enum EditorKey {
    Save,
    Cancel,
    Ignore,
}

pub fn editor_key(key: &str) -> (r: EditorKey)
    ensures
        r == if key@ == "Enter"@ {
            EditorKey::Save
        } else if key@ == "Escape"@ {
            EditorKey::Cancel
        } else {
            EditorKey::Ignore
        },
{
    if str_eq(key, "Enter") {
        EditorKey::Save
    } else if str_eq(key, "Escape") {
        EditorKey::Cancel
    } else {
        EditorKey::Ignore
    }
}

/// A copy of a string.
fn copy_string(s: &String) -> (r: String)
    ensures
        r@ == s@,
{
    s.as_str().to_owned()
}

fn copy_opt(s: &Option<String>) -> (r: Option<String>)
    ensures
        match (r, *s) {
            (Some(a), Some(b)) => a@ == b@,
            (None, None) => true,
            _ => false,
        },
{
    match s {
        Some(x) => Some(copy_string(x)),
        None => None,
    }
}

/// Two rules with the same fields, as text.
pub open spec fn same_rule(a: BusinessRule, b: BusinessRule) -> bool {
    &&& a.id@ == b.id@
    &&& a.rule_key@ == b.rule_key@
    &&& a.rule_value@ == b.rule_value@
    &&& opt_eq(a.description, b.description)
    &&& opt_eq(a.updated_by, b.updated_by)
    &&& a.updated_at@ == b.updated_at@
}

pub open spec fn opt_eq(a: Option<String>, b: Option<String>) -> bool {
    match (a, b) {
        (Some(x), Some(y)) => x@ == y@,
        (None, None) => true,
        _ => false,
    }
}

fn copy_rule(r: &BusinessRule) -> (c: BusinessRule)
    ensures
        same_rule(c, *r),
{
    BusinessRule {
        id: copy_string(&r.id),
        rule_key: copy_string(&r.rule_key),
        rule_value: copy_string(&r.rule_value),
        description: copy_opt(&r.description),
        updated_by: copy_opt(&r.updated_by),
        updated_at: copy_string(&r.updated_at),
    }
}

/// The list after a save: every rule with the saved rule's key becomes the
/// saved rule; the others stay as they were.
pub fn apply_saved_rule(rules: &mut Vec<BusinessRule>, updated: &BusinessRule)
    ensures
        final(rules)@.len() == old(rules)@.len(),
        forall|i: int|
            0 <= i < old(rules)@.len() ==> if old(rules)@[i].rule_key@ == updated.rule_key@ {
                same_rule(#[trigger] final(rules)@[i], *updated)
            } else {
                final(rules)@[i] == old(rules)@[i]
            },
{
    let ghost orig = rules@;
    let mut i: usize = 0;
    while i < rules.len()
        invariant
            i <= rules@.len(),
            rules@.len() == orig.len(),
            forall|k: int|
                0 <= k < orig.len() ==> if orig[k].rule_key@ == updated.rule_key@ && k < i {
                    same_rule(#[trigger] rules@[k], *updated)
                } else {
                    rules@[k] == orig[k]
                },
        decreases orig.len() - i,
    {
        if str_eq(rules[i].rule_key.as_str(), updated.rule_key.as_str()) {
            let c = copy_rule(updated);
            rules.set(i, c);
        }
        i = i + 1;
    }
}

/// The value cell's text colour: green right after a save.
pub fn value_class(just_saved: bool) -> (r: &'static str)
    ensures
        just_saved ==> r@ == "text-emerald-700"@,
        !just_saved ==> r@ == "text-slate-700"@,
{
    if just_saved {
        "text-emerald-700"
    } else {
        "text-slate-700"
    }
}

} // verus!
