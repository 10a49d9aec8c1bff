//! Configurable business rules (Admin only): the rule shape, its category,
//! and the rules endpoints' paths.

use vstd::prelude::*;
use crate::text::{has_prefix, starts_with};

verus! {

#[derive(Debug, Clone, PartialEq)]
pub struct BusinessRule {
    pub id: String,
    pub rule_key: String,
    pub rule_value: String,
    pub description: Option<String>,
    pub updated_by: Option<String>,
    pub updated_at: String,
}

/// The category of a rule key, from its prefix.
pub open spec fn rule_category(key: Seq<char>) -> Seq<char> {
    if has_prefix(key, "refund"@) || has_prefix(key, "order_hold"@) {
        "Orders & Refunds"@
    } else if has_prefix(key, "quality"@) || has_prefix(key, "similarity"@) {
        "Content Quality"@
    } else if has_prefix(key, "crawl"@) || has_prefix(key, "sample"@) {
        "Data Ingestion"@
    } else if has_prefix(key, "session"@) || has_prefix(key, "rate"@) || has_prefix(
        key,
        "max_failed"@,
    ) || has_prefix(key, "lockout"@) {
        "Security & Sessions"@
    } else {
        "General"@
    }
}

impl BusinessRule {
    /// Short human-readable category derived from the key prefix.
    pub fn category(&self) -> (r: &'static str)
        ensures
            r@ == rule_category(self.rule_key@),
    {
        let k = self.rule_key.as_str();
        if starts_with(k, "refund") || starts_with(k, "order_hold") {
            "Orders & Refunds"
        } else if starts_with(k, "quality") || starts_with(k, "similarity") {
            "Content Quality"
        } else if starts_with(k, "crawl") || starts_with(k, "sample") {
            "Data Ingestion"
        } else if starts_with(k, "session") || starts_with(k, "rate") || starts_with(
            k,
            "max_failed",
        ) || starts_with(k, "lockout") {
            "Security & Sessions"
        } else {
            "General"
        }
    }
}

/// Which category each key prefix puts a rule in: keys that begin with
/// `refund` or `order_hold` are Orders & Refunds; `quality` or `similarity`,
/// Content Quality; `crawl` or `sample`, Data Ingestion; `session`, `rate`,
/// `max_failed` or `lockout`, Security & Sessions; and a key is General
/// exactly when it begins with none of these.
pub proof fn law_rule_category_by_prefix(key: Seq<char>)
    ensures
        has_prefix(key, "refund"@) ==> rule_category(key) == "Orders & Refunds"@,
        has_prefix(key, "order_hold"@) ==> rule_category(key) == "Orders & Refunds"@,
        has_prefix(key, "quality"@) ==> rule_category(key) == "Content Quality"@,
        has_prefix(key, "similarity"@) ==> rule_category(key) == "Content Quality"@,
        has_prefix(key, "crawl"@) ==> rule_category(key) == "Data Ingestion"@,
        has_prefix(key, "sample"@) ==> rule_category(key) == "Data Ingestion"@,
        has_prefix(key, "session"@) ==> rule_category(key) == "Security & Sessions"@,
        has_prefix(key, "rate"@) ==> rule_category(key) == "Security & Sessions"@,
        has_prefix(key, "max_failed"@) ==> rule_category(key) == "Security & Sessions"@,
        has_prefix(key, "lockout"@) ==> rule_category(key) == "Security & Sessions"@,
        rule_category(key) == "General"@ <==> !(has_prefix(key, "refund"@) || has_prefix(
            key,
            "order_hold"@,
        ) || has_prefix(key, "quality"@) || has_prefix(key, "similarity"@) || has_prefix(
            key,
            "crawl"@,
        ) || has_prefix(key, "sample"@) || has_prefix(key, "session"@) || has_prefix(key, "rate"@)
            || has_prefix(key, "max_failed"@) || has_prefix(key, "lockout"@)),
{
    reveal_strlit("refund");
    reveal_strlit("order_hold");
    reveal_strlit("quality");
    reveal_strlit("similarity");
    reveal_strlit("crawl");
    reveal_strlit("sample");
    reveal_strlit("session");
    reveal_strlit("rate");
    reveal_strlit("max_failed");
    reveal_strlit("lockout");
    reveal_strlit("Orders & Refunds");
    reveal_strlit("Content Quality");
    reveal_strlit("Data Ingestion");
    reveal_strlit("Security & Sessions");
    reveal_strlit("General");
    assert("General"@.len() == 7 && "Orders & Refunds"@.len() == 16 && "Content Quality"@.len()
        == 15 && "Data Ingestion"@.len() == 14 && "Security & Sessions"@.len() == 19);
    assert("General"@ != "Orders & Refunds"@ && "General"@ != "Content Quality"@ && "General"@
        != "Data Ingestion"@ && "General"@ != "Security & Sessions"@);
    // Two prefixes that differ in one of their first two characters never
    // both begin the same key.
    if key.len() >= 2 {
        let k0 = key[0];
        let k1 = key[1];
        assert(has_prefix(key, "refund"@) ==> k0 == 'r' && k1 == 'e') by {
            if has_prefix(key, "refund"@) {
                assert(key.take(6)[0] == key[0] && key.take(6)[1] == key[1]);
            }
        }
        assert(has_prefix(key, "order_hold"@) ==> k0 == 'o') by {
            if has_prefix(key, "order_hold"@) {
                assert(key.take(10)[0] == key[0]);
            }
        }
        assert(has_prefix(key, "quality"@) ==> k0 == 'q') by {
            if has_prefix(key, "quality"@) {
                assert(key.take(7)[0] == key[0]);
            }
        }
        assert(has_prefix(key, "similarity"@) ==> k0 == 's' && k1 == 'i') by {
            if has_prefix(key, "similarity"@) {
                assert(key.take(10)[0] == key[0] && key.take(10)[1] == key[1]);
            }
        }
        assert(has_prefix(key, "crawl"@) ==> k0 == 'c') by {
            if has_prefix(key, "crawl"@) {
                assert(key.take(5)[0] == key[0]);
            }
        }
        assert(has_prefix(key, "sample"@) ==> k0 == 's' && k1 == 'a') by {
            if has_prefix(key, "sample"@) {
                assert(key.take(6)[0] == key[0] && key.take(6)[1] == key[1]);
            }
        }
        assert(has_prefix(key, "session"@) ==> k0 == 's' && k1 == 'e') by {
            if has_prefix(key, "session"@) {
                assert(key.take(7)[0] == key[0] && key.take(7)[1] == key[1]);
            }
        }
        assert(has_prefix(key, "rate"@) ==> k0 == 'r' && k1 == 'a') by {
            if has_prefix(key, "rate"@) {
                assert(key.take(4)[0] == key[0] && key.take(4)[1] == key[1]);
            }
        }
        assert(has_prefix(key, "max_failed"@) ==> k0 == 'm') by {
            if has_prefix(key, "max_failed"@) {
                assert(key.take(10)[0] == key[0]);
            }
        }
        assert(has_prefix(key, "lockout"@) ==> k0 == 'l') by {
            if has_prefix(key, "lockout"@) {
                assert(key.take(7)[0] == key[0]);
            }
        }
    }
}

#[derive(Debug, Clone)]
pub struct UpdateRuleBody {
    pub value: String,
}

/// Path of the rule listing.
pub const RULES_PATH: &'static str = "/api/v1/rules";

/// Path of one rule's update (`PATCH`).
pub fn rule_path(key: &str) -> (r: String)
    ensures
        r@ == "/api/v1/rules/"@ + key@,
{
    let mut s = "/api/v1/rules/".to_owned();
    s.append(key);
    s
}

} // verus!
