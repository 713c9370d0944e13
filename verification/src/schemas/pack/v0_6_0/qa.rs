//! Pack QA schema (v0.6.0).
use std::collections::BTreeMap;

use crate::i18n_text::I18nText;
use vstd::prelude::*;
use vstd::utf8::{encode_utf8, encode_utf8_decode_utf8};

use crate::cbor::canonical::{lemma_lex_less_asym, lemma_lex_less_total, lemma_lex_less_trans, lex_less};
use crate::text::texts;

verus! {

/// QA mode.
#[derive(Clone, Debug, PartialEq, Eq)]
pub enum QaMode {
    /// Default mode.
    Default,
    /// Setup mode.
    Setup,
    /// Upgrade mode.
    Upgrade,
    /// Remove mode.
    Remove,
}

/// QA spec for a pack.
#[derive(Clone, Debug, PartialEq)]
pub struct PackQaSpec {
    /// QA mode.
    pub mode: QaMode,
    /// Human-readable title.
    pub title: I18nText,
    /// Optional description.
    pub description: Option<I18nText>,
    /// Questions to present.
    pub questions: Vec<Question>,
    /// Default values (canonical order).
    pub defaults: BTreeMap<String, ciborium::value::Value>,
}

/// Question entry.
#[derive(Clone, Debug, PartialEq)]
pub struct Question {
    /// Question identifier.
    pub id: String,
    /// Label shown to the user.
    pub label: I18nText,
    /// Optional help text.
    pub help: Option<I18nText>,
    /// Optional error message (validation feedback).
    pub error: Option<I18nText>,
    /// Kind of question.
    pub kind: QuestionKind,
    /// Whether the question is required.
    pub required: bool,
    /// Optional default value.
    pub default: Option<ciborium::value::Value>,
}

/// Question type.
#[derive(Clone, Debug, PartialEq)]
pub enum QuestionKind {
    /// Free-form text input.
    Text,
    /// Choice list.
    Choice {
        /// Choice options presented to the user.
        options: Vec<ChoiceOption>,
    },
    /// Numeric input.
    Number,
    /// Boolean input.
    Bool,
}

/// Choice option.
#[derive(Clone, Debug, PartialEq)]
pub struct ChoiceOption {
    /// Value returned for this option.
    pub value: String,
    /// Label shown to the user.
    pub label: I18nText,
}


/// Keys in strictly increasing string order (byte-wise on their UTF-8
/// encoding), so each key appears once.
pub open spec fn keys_sorted(s: Seq<Seq<char>>) -> bool {
    forall|i: int, j: int|
        0 <= i < j < s.len() ==> lex_less(encode_utf8(#[trigger] s[i]), encode_utf8(#[trigger] s[j]))
}

/// Whether `a` sorts strictly before `b` as strings.
fn str_less(a: &str, b: &str) -> (r: bool)
    ensures
        r == lex_less(encode_utf8(a@), encode_utf8(b@)),
{
    let ab = a.as_bytes();
    let bb = b.as_bytes();
    let mut i: usize = 0;
    assert(ab@.subrange(0, ab@.len() as int) =~= ab@);
    assert(bb@.subrange(0, bb@.len() as int) =~= bb@);
    while i < ab.len() && i < bb.len()
        invariant
            i <= ab.len(),
            i <= bb.len(),
            ab@ == encode_utf8(a@),
            bb@ == encode_utf8(b@),
            lex_less(ab@, bb@) == lex_less(
                ab@.subrange(i as int, ab@.len() as int),
                bb@.subrange(i as int, bb@.len() as int),
            ),
        decreases ab.len() - i,
    {
        let ghost sa = ab@.subrange(i as int, ab@.len() as int);
        let ghost sb = bb@.subrange(i as int, bb@.len() as int);
        assert(sa.drop_first() =~= ab@.subrange(i + 1, ab@.len() as int));
        assert(sb.drop_first() =~= bb@.subrange(i + 1, bb@.len() as int));
        assert(sa[0] == ab@[i as int] && sb[0] == bb@[i as int]);
        if ab[i] != bb[i] {
            return ab[i] < bb[i];
        }
        i = i + 1;
    }
    i < bb.len()
}

/// Adds a key to a sorted key list unless it is already there.
fn insert_key(keys: &mut Vec<String>, key: String)
    requires
        keys_sorted(texts(old(keys)@)),
    ensures
        keys_sorted(texts(final(keys)@)),
        texts(final(keys)@).to_set() == texts(old(keys)@).to_set().insert(key@),
{
    let ghost ks = texts(keys@);
    let mut j: usize = 0;
    while j < keys.len() && str_less(keys[j].as_str(), key.as_str())
        invariant
            j <= keys.len(),
            ks == texts(keys@),
            keys_sorted(ks),
            forall|i: int| 0 <= i < j ==> lex_less(encode_utf8(#[trigger] ks[i]), encode_utf8(key@)),
        decreases keys.len() - j,
    {
        j = j + 1;
    }
    if j < keys.len() && crate::text::str_eq(keys[j].as_str(), key.as_str()) {
        assert(ks[j as int] == key@);
        assert(ks.to_set().insert(key@) =~= ks.to_set());
        return;
    }
    proof {
        if j < keys.len() {
            assert(ks[j as int] != key@);
            encode_utf8_decode_utf8(ks[j as int]);
            encode_utf8_decode_utf8(key@);
            lemma_lex_less_total(encode_utf8(ks[j as int]), encode_utf8(key@));
            assert(lex_less(encode_utf8(key@), encode_utf8(ks[j as int])));
        }
    }
    let ghost kv = key@;
    keys.insert(j, key);
    proof {
        let ns = texts(keys@);
        assert(ns =~= ks.insert(j as int, kv));
        assert forall|a: int, b: int| 0 <= a < b < ns.len() implies lex_less(
            encode_utf8(#[trigger] ns[a]),
            encode_utf8(#[trigger] ns[b]),
        ) by {
            if b < j {
            } else if b == j {
            } else if a < j {
                // ks[a] < key < ks[j] <= ks[b - 1]
                lemma_lex_less_trans(encode_utf8(ks[a]), encode_utf8(kv), encode_utf8(ks[j as int]));
                if b - 1 > j {
                    lemma_lex_less_trans(encode_utf8(ks[a]), encode_utf8(ks[j as int]), encode_utf8(ks[b - 1]));
                }
            } else if a == j {
                if b - 1 > j {
                    lemma_lex_less_trans(encode_utf8(kv), encode_utf8(ks[j as int]), encode_utf8(ks[b - 1]));
                }
            } else {
            }
        }
        assert(ns.to_set() =~= ks.to_set().insert(kv)) by {
            assert forall|x: Seq<char>| ns.to_set().contains(x) <==> ks.to_set().insert(kv).contains(x) by {
                if ns.contains(x) {
                    let i = choose|i: int| 0 <= i < ns.len() && ns[i] == x;
                    if i < j {
                        assert(ks[i] == x);
                    } else if i > j {
                        assert(ks[i - 1] == x);
                    }
                }
                if ks.contains(x) {
                    let i = choose|i: int| 0 <= i < ks.len() && ks[i] == x;
                    if i < j {
                        assert(ns[i] == x);
                    } else {
                        assert(ns[i + 1] == x);
                    }
                }
                if x == kv {
                    assert(ns[j as int] == x);
                }
            }
        }
    }
}


/// The i18n keys of an optional text.
pub open spec fn opt_key(t: Option<I18nText>) -> Seq<Seq<char>> {
    match t {
        Some(t) => seq![t.key@],
        None => Seq::empty(),
    }
}

/// The label keys of choice options.
pub open spec fn option_keys(os: Seq<ChoiceOption>) -> Seq<Seq<char>> {
    os.map_values(|o: ChoiceOption| o.label.key@)
}

/// The i18n keys a question references: label, help, error, option labels.
pub open spec fn question_keys(q: Question) -> Seq<Seq<char>> {
    seq![q.label.key@] + opt_key(q.help) + opt_key(q.error) + match q.kind {
        QuestionKind::Choice { options } => option_keys(options@),
        _ => Seq::empty(),
    }
}

/// The i18n keys of a list of questions.
pub open spec fn questions_keys(qs: Seq<Question>) -> Seq<Seq<char>>
    decreases qs.len(),
{
    if qs.len() == 0 {
        Seq::empty()
    } else {
        questions_keys(qs.drop_last()) + question_keys(qs.last())
    }
}

/// The i18n keys a spec references: title, description, then the questions'.
pub open spec fn spec_i18n_keys(spec: PackQaSpec) -> Seq<Seq<char>> {
    seq![spec.title.key@] + opt_key(spec.description) + questions_keys(spec.questions@)
}

fn add_opt_key(keys: &mut Vec<String>, t: &Option<I18nText>)
    requires
        keys_sorted(texts(old(keys)@)),
    ensures
        keys_sorted(texts(final(keys)@)),
        texts(final(keys)@).to_set() == texts(old(keys)@).to_set() + opt_key(*t).to_set(),
{
    match t {
        Some(t) => {
            insert_key(keys, t.key.clone());
            proof {
                lemma_singleton_to_set(t.key@);
            }
            assert(texts(old(keys)@).to_set().insert(t.key@) =~= texts(old(keys)@).to_set() + seq![t.key@].to_set());
        },
        None => {
            assert(texts(old(keys)@).to_set() + Seq::<Seq<char>>::empty().to_set() =~= texts(old(keys)@).to_set());
        },
    }
}

impl Question {
    fn collect_i18n_keys(&self, keys: &mut Vec<String>)
        requires
            keys_sorted(texts(old(keys)@)),
        ensures
            keys_sorted(texts(final(keys)@)),
            texts(final(keys)@).to_set() == texts(old(keys)@).to_set() + question_keys(*self).to_set(),
    {
        let ghost start = texts(keys@).to_set();
        insert_key(keys, self.label.key.clone());
        add_opt_key(keys, &self.help);
        add_opt_key(keys, &self.error);
        let ghost mid = texts(keys@).to_set();
        assert(mid =~= start + (seq![self.label.key@] + opt_key(self.help) + opt_key(self.error)).to_set()) by {
            lemma_singleton_to_set(self.label.key@);
            assert((seq![self.label.key@] + opt_key(self.help) + opt_key(self.error)).to_set() =~= seq![self.label.key@].to_set() + opt_key(self.help).to_set() + opt_key(self.error).to_set()) by {
                lemma_concat_to_set(seq![self.label.key@], opt_key(self.help));
                lemma_concat_to_set(seq![self.label.key@] + opt_key(self.help), opt_key(self.error));
            }
        }
        if let QuestionKind::Choice { options } = &self.kind {
            let mut i: usize = 0;
            assert(option_keys(options@).subrange(0, 0) =~= Seq::<Seq<char>>::empty());
            while i < options.len()
                invariant
                    i <= options.len(),
                    keys_sorted(texts(keys@)),
                    texts(keys@).to_set() == mid + option_keys(options@).subrange(0, i as int).to_set(),
                decreases options.len() - i,
            {
                let ghost before = texts(keys@).to_set();
                insert_key(keys, options[i].label.key.clone());
                proof {
                    let ok = option_keys(options@);
                    assert(ok.subrange(0, i + 1) =~= ok.subrange(0, i as int).push(ok[i as int]));
                    lemma_concat_to_set(ok.subrange(0, i as int), seq![ok[i as int]]);
                    assert(ok.subrange(0, i as int).push(ok[i as int]) =~= ok.subrange(0, i as int) + seq![ok[i as int]]);
                    lemma_singleton_to_set(ok[i as int]);
                    assert(texts(keys@).to_set() =~= mid + ok.subrange(0, i + 1).to_set());
                }
                i = i + 1;
            }
            proof {
                assert(option_keys(options@).subrange(0, options.len() as int) =~= option_keys(options@));
                lemma_concat_to_set(seq![self.label.key@] + opt_key(self.help) + opt_key(self.error), option_keys(options@));
                assert(texts(keys@).to_set() =~= start + question_keys(*self).to_set());
            }
        } else {
            proof {
                lemma_concat_to_set(seq![self.label.key@] + opt_key(self.help) + opt_key(self.error), Seq::empty());
                assert(seq![self.label.key@] + opt_key(self.help) + opt_key(self.error) + Seq::<Seq<char>>::empty() =~= seq![self.label.key@] + opt_key(self.help) + opt_key(self.error));
                assert(texts(keys@).to_set() =~= start + question_keys(*self).to_set());
            }
        }
    }
}

/// The set of a one-element sequence.
proof fn lemma_singleton_to_set(x: Seq<char>)
    ensures
        seq![x].to_set() == Set::<Seq<char>>::empty().insert(x),
{
    assert forall|y: Seq<char>| seq![x].to_set().contains(y) <==> Set::<Seq<char>>::empty().insert(x).contains(y) by {
        if y == x {
            assert(seq![x][0] == y);
        }
    }
    assert(seq![x].to_set() =~= Set::<Seq<char>>::empty().insert(x));
}

/// The set of the empty sequence.
proof fn lemma_empty_to_set()
    ensures
        Seq::<Seq<char>>::empty().to_set() == Set::<Seq<char>>::empty(),
{
    assert(Seq::<Seq<char>>::empty().to_set() =~= Set::<Seq<char>>::empty());
}

/// The set of a concatenation is the union of the sets.
proof fn lemma_concat_to_set(a: Seq<Seq<char>>, b: Seq<Seq<char>>)
    ensures
        (a + b).to_set() == a.to_set() + b.to_set(),
{
    assert forall|x: Seq<char>| (a + b).to_set().contains(x) <==> (a.to_set() + b.to_set()).contains(x) by {
        if (a + b).contains(x) {
            let i = choose|i: int| 0 <= i < (a + b).len() && (a + b)[i] == x;
            if i < a.len() {
                assert(a[i] == x);
            } else {
                assert(b[i - a.len()] == x);
            }
        }
        if a.contains(x) {
            let i = choose|i: int| 0 <= i < a.len() && a[i] == x;
            assert((a + b)[i] == x);
        }
        if b.contains(x) {
            let i = choose|i: int| 0 <= i < b.len() && b[i] == x;
            assert((a + b)[a.len() + i] == x);
        }
    }
    assert((a + b).to_set() =~= a.to_set() + b.to_set());
}

impl PackQaSpec {
    /// Collect all i18n keys referenced by this spec, sorted and without
    /// repetition.
    pub fn i18n_keys(&self) -> (r: Vec<String>)
        ensures
            keys_sorted(texts(r@)),
            texts(r@).to_set() == spec_i18n_keys(*self).to_set(),
    {
        let mut keys: Vec<String> = Vec::new();
        assert(texts(keys@) =~= Seq::<Seq<char>>::empty());
        insert_key(&mut keys, self.title.key.clone());
        add_opt_key(&mut keys, &self.description);
        let ghost head = seq![self.title.key@] + opt_key(self.description);
        proof {
            lemma_concat_to_set(seq![self.title.key@], opt_key(self.description));
            lemma_singleton_to_set(self.title.key@);
            lemma_empty_to_set();
            assert(texts(keys@).to_set() =~= head.to_set());
        }
        let mut i: usize = 0;
        assert(self.questions@.subrange(0, 0) =~= Seq::<Question>::empty());
        while i < self.questions.len()
            invariant
                i <= self.questions.len(),
                head == seq![self.title.key@] + opt_key(self.description),
                keys_sorted(texts(keys@)),
                texts(keys@).to_set() == (head + questions_keys(self.questions@.subrange(0, i as int))).to_set(),
            decreases self.questions.len() - i,
        {
            self.questions[i].collect_i18n_keys(&mut keys);
            proof {
                let sub = self.questions@.subrange(0, i + 1);
                assert(sub.drop_last() =~= self.questions@.subrange(0, i as int));
                assert(sub.last() == self.questions@[i as int]);
                let prev = questions_keys(self.questions@.subrange(0, i as int));
                lemma_concat_to_set(head, prev);
                lemma_concat_to_set(head, questions_keys(sub));
                lemma_concat_to_set(prev, question_keys(self.questions@[i as int]));
                assert(texts(keys@).to_set() =~= (head + questions_keys(sub)).to_set());
            }
            i = i + 1;
        }
        assert(self.questions@.subrange(0, self.questions.len() as int) =~= self.questions@);
        keys
    }
}

} // verus!
