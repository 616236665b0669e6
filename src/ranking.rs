use crate::common::Warning;
use crate::v1::RankingRule;
use crate::v2::{asc_suffix, criterion_text, desc_suffix, Criterion};
use vstd::prelude::*;

verus! {

/// The criterion that a ranking rule of the first schema becomes; `wordsPosition` has none.
pub open spec fn rule_criterion(rule: RankingRule) -> Option<Criterion> {
    match rule {
        RankingRule::Typo => Some(Criterion::Typo),
        RankingRule::Words => Some(Criterion::Words),
        RankingRule::Proximity => Some(Criterion::Proximity),
        RankingRule::Attribute => Some(Criterion::Attribute),
        RankingRule::WordsPosition => None,
        RankingRule::Exactness => Some(Criterion::Exactness),
        RankingRule::Asc(f) => Some(Criterion::Asc(f)),
        RankingRule::Desc(f) => Some(Criterion::Desc(f)),
    }
}

/// The warnings that translating one rule of the index `uid` reports.
pub open spec fn rule_warnings(uid: String, rule: RankingRule) -> Seq<Warning> {
    if rule is WordsPosition {
        seq![Warning::WordsPositionRemoved { index: uid }]
    } else {
        seq![]
    }
}

/// Translates one ranking rule of the index `uid`, reporting a dropped `wordsPosition`.
pub fn criterion_of(rule: &RankingRule, uid: &String, warnings: &mut Vec<Warning>) -> (r: Option<
    Criterion,
>)
    ensures
        r == rule_criterion(*rule),
        final(warnings)@ == old(warnings)@ + rule_warnings(*uid, *rule),
{
    match rule {
        RankingRule::Typo => Some(Criterion::Typo),
        RankingRule::Words => Some(Criterion::Words),
        RankingRule::Proximity => Some(Criterion::Proximity),
        RankingRule::Attribute => Some(Criterion::Attribute),
        RankingRule::WordsPosition => {
            warnings.push(Warning::WordsPositionRemoved { index: uid.clone() });
            None
        },
        RankingRule::Exactness => Some(Criterion::Exactness),
        RankingRule::Asc(f) => Some(Criterion::Asc(f.clone())),
        RankingRule::Desc(f) => Some(Criterion::Desc(f.clone())),
    }
}

/// The views of a sequence of strings.
pub open spec fn texts(v: Seq<String>) -> Seq<Seq<char>> {
    v.map_values(|s: String| s@)
}

/// The stored texts of the criteria that a list of rules becomes, in order, with drops removed.
pub open spec fn rules_out(rules: Seq<RankingRule>) -> Seq<Seq<char>>
    decreases rules.len(),
{
    if rules.len() == 0 {
        seq![]
    } else {
        let rest = rules_out(rules.drop_last());
        match rule_criterion(rules.last()) {
            Some(c) => rest.push(criterion_text(c)),
            None => rest,
        }
    }
}

/// The warnings that translating a list of rules of the index `uid` reports, in order.
pub open spec fn rules_warnings(uid: String, rules: Seq<RankingRule>) -> Seq<Warning>
    decreases rules.len(),
{
    if rules.len() == 0 {
        seq![]
    } else {
        rules_warnings(uid, rules.drop_last()) + rule_warnings(uid, rules.last())
    }
}

/// Translates a list of ranking rules of the index `uid` element by element, keeping the order.
pub fn translate_rules(rules: &Vec<RankingRule>, uid: &String, warnings: &mut Vec<Warning>) -> (r:
    Vec<String>)
    ensures
        texts(r@) == rules_out(rules@),
        final(warnings)@ == old(warnings)@ + rules_warnings(*uid, rules@),
{
    let mut out: Vec<String> = Vec::new();
    let mut i: usize = 0;
    while i < rules.len()
        invariant
            i <= rules@.len(),
            texts(out@) == rules_out(rules@.take(i as int)),
            warnings@ == old(warnings)@ + rules_warnings(*uid, rules@.take(i as int)),
        decreases rules@.len() - i,
    {
        let ghost before = warnings@;
        let c = criterion_of(&rules[i], uid, warnings);
        proof {
            assert(rules@.take(i + 1).drop_last() =~= rules@.take(i as int));
            assert(rules@.take(i + 1).last() == rules@[i as int]);
        }
        match c {
            Some(c) => {
                let t = c.to_text();
                let ghost prev = out@;
                out.push(t);
                assert(texts(out@) =~= texts(prev).push(t@));
            },
            None => {},
        }
        assert(warnings@ =~= old(warnings)@ + rules_warnings(*uid, rules@.take(i + 1)));
        i = i + 1;
    }
    assert(rules@.take(rules@.len() as int) =~= rules@);
    out
}

pub open spec fn asc_open() -> Seq<char> {
    seq!['a', 's', 'c', '(']
}

pub open spec fn desc_open() -> Seq<char> {
    seq!['d', 'e', 's', 'c', '(']
}

/// Whether `t` is a sort directive `open` + field + `)`, with a field of at least one character.
pub open spec fn is_directive(t: Seq<char>, open: Seq<char>) -> bool {
    &&& t.len() > open.len() + 1
    &&& t.subrange(0, open.len() as int) == open
    &&& t.last() == ')'
}

/// The field named by a sort directive.
pub open spec fn directive_field(t: Seq<char>, open: Seq<char>) -> Seq<char> {
    t.subrange(open.len() as int, t.len() - 1)
}

/// Whether `t` names one of the kept abstract criteria of the first schema.
pub open spec fn is_kept_keyword(t: Seq<char>) -> bool {
    t == "typo"@ || t == "words"@ || t == "proximity"@ || t == "attribute"@ || t == "exactness"@
}

/// Whether `t` names one of the abstract ranking rules of the first schema.
pub open spec fn is_keyword(t: Seq<char>) -> bool {
    t == "wordsPosition"@ || is_kept_keyword(t)
}

/// What parsing the stored text `t` of a ranking rule of the first schema gives.
pub open spec fn parsed(t: Seq<char>, r: Option<RankingRule>) -> bool {
    match r {
        Some(RankingRule::WordsPosition) => t == "wordsPosition"@,
        Some(RankingRule::Typo) => t != "wordsPosition"@ && t == "typo"@,
        Some(RankingRule::Words) => t != "wordsPosition"@ && t == "words"@,
        Some(RankingRule::Proximity) => t != "wordsPosition"@ && t == "proximity"@,
        Some(RankingRule::Attribute) => t != "wordsPosition"@ && t == "attribute"@,
        Some(RankingRule::Exactness) => t != "wordsPosition"@ && t == "exactness"@,
        Some(RankingRule::Asc(f)) => !is_keyword(t) && is_directive(t, asc_open()) && f@
            == directive_field(t, asc_open()),
        Some(RankingRule::Desc(f)) => !is_keyword(t) && !is_directive(t, asc_open())
            && is_directive(t, desc_open()) && f@ == directive_field(t, desc_open()),
        None => !is_keyword(t) && !is_directive(t, asc_open()) && !is_directive(t, desc_open()),
    }
}

fn same_text(a: &str, b: &str) -> (r: bool)
    ensures
        r == (a@ == b@),
{
    String::from_str(a) == String::from_str(b)
}

/// The field of `s` when it has the form `open` + field + `)` with a non-empty field.
fn directive_of(s: &str, open: &str) -> (r: Option<String>)
    ensures
        match r {
            Some(f) => is_directive(s@, open@) && f@ == directive_field(s@, open@),
            None => !is_directive(s@, open@),
        },
{
    let n = s.unicode_len();
    let m = open.unicode_len();
    if n <= m || n - m < 2 {
        return None;
    }
    if !same_text(s.substring_char(0, m), open) {
        return None;
    }
    if s.get_char(n - 1) != ')' {
        return None;
    }
    Some(String::from_str(s.substring_char(m, n - 1)))
}

impl RankingRule {
    /// Reads a ranking rule from its stored text: a rule name, `asc(field)` or `desc(field)`.
    pub fn parse(s: &str) -> (r: Option<RankingRule>)
        ensures
            parsed(s@, r),
    {
        if same_text(s, "wordsPosition") {
            Some(RankingRule::WordsPosition)
        } else if same_text(s, "typo") {
            Some(RankingRule::Typo)
        } else if same_text(s, "words") {
            Some(RankingRule::Words)
        } else if same_text(s, "proximity") {
            Some(RankingRule::Proximity)
        } else if same_text(s, "attribute") {
            Some(RankingRule::Attribute)
        } else if same_text(s, "exactness") {
            Some(RankingRule::Exactness)
        } else {
            proof {
                reveal_strlit("asc(");
                reveal_strlit("desc(");
                assert("asc("@ =~= asc_open());
                assert("desc("@ =~= desc_open());
            }
            match directive_of(s, "asc(") {
                Some(f) => Some(RankingRule::Asc(f)),
                None => match directive_of(s, "desc(") {
                    Some(f) => Some(RankingRule::Desc(f)),
                    None => None,
                },
            }
        }
    }
}

/// What a stored rule text of the first schema becomes: the text of its criterion, nothing for
/// `wordsPosition`, and the text itself when it is no rule that the first schema knows.
pub open spec fn text_out(t: Seq<char>) -> Option<Seq<char>> {
    if t == "wordsPosition"@ {
        None
    } else if is_kept_keyword(t) {
        Some(t)
    } else if is_directive(t, asc_open()) {
        Some(directive_field(t, asc_open()) + asc_suffix())
    } else if is_directive(t, desc_open()) {
        Some(directive_field(t, desc_open()) + desc_suffix())
    } else {
        Some(t)
    }
}

/// The texts that a list of stored rule texts becomes, in order, with drops removed.
pub open spec fn texts_out(rules: Seq<String>) -> Seq<Seq<char>>
    decreases rules.len(),
{
    if rules.len() == 0 {
        seq![]
    } else {
        let rest = texts_out(rules.drop_last());
        match text_out(rules.last()@) {
            Some(t) => rest.push(t),
            None => rest,
        }
    }
}

/// The warnings that translating a list of stored rule texts of the index `uid` reports.
pub open spec fn texts_warnings(uid: String, rules: Seq<String>) -> Seq<Warning>
    decreases rules.len(),
{
    if rules.len() == 0 {
        seq![]
    } else if rules.last()@ == "wordsPosition"@ {
        texts_warnings(uid, rules.drop_last()).push(Warning::WordsPositionRemoved { index: uid })
    } else {
        texts_warnings(uid, rules.drop_last())
    }
}

/// Translates one stored rule text of the index `uid`; a text that is no known rule is kept.
fn translate_text_rule(s: &String, uid: &String, warnings: &mut Vec<Warning>) -> (r: Option<
    String,
>)
    ensures
        match r {
            Some(t) => text_out(s@) == Some(t@),
            None => text_out(s@) is None,
        },
        s@ == "wordsPosition"@ ==> final(warnings)@ == old(warnings)@.push(
            Warning::WordsPositionRemoved { index: *uid },
        ),
        s@ != "wordsPosition"@ ==> final(warnings)@ == old(warnings)@,
{
    match RankingRule::parse(s.as_str()) {
        Some(rule) => {
            let c = criterion_of(&rule, uid, warnings);
            match c {
                Some(c) => Some(c.to_text()),
                None => None,
            }
        },
        None => Some(s.clone()),
    }
}

/// Translates the stored rule texts of the index `uid` element by element, keeping the order.
pub fn translate_text_rules(rules: &Vec<String>, uid: &String, warnings: &mut Vec<Warning>) -> (r:
    Vec<String>)
    ensures
        texts(r@) == texts_out(rules@),
        final(warnings)@ == old(warnings)@ + texts_warnings(*uid, rules@),
{
    let mut out: Vec<String> = Vec::new();
    let mut i: usize = 0;
    while i < rules.len()
        invariant
            i <= rules@.len(),
            texts(out@) == texts_out(rules@.take(i as int)),
            warnings@ == old(warnings)@ + texts_warnings(*uid, rules@.take(i as int)),
        decreases rules@.len() - i,
    {
        let t = translate_text_rule(&rules[i], uid, warnings);
        proof {
            assert(rules@.take(i + 1).drop_last() =~= rules@.take(i as int));
            assert(rules@.take(i + 1).last() == rules@[i as int]);
        }
        match t {
            Some(t) => {
                let ghost prev = out@;
                out.push(t);
                assert(texts(out@) =~= texts(prev).push(t@));
            },
            None => {},
        }
        assert(warnings@ =~= old(warnings)@ + texts_warnings(*uid, rules@.take(i + 1)));
        i = i + 1;
    }
    assert(rules@.take(rules@.len() as int) =~= rules@);
    out
}

} // verus!
