//! Which entries of the provider's model catalogue are offered for
//! translation, and in what order.  Fetching the catalogue is network work
//! and happens outside the library; judging and ordering the names is
//! decided here.

use vstd::prelude::*;

use crate::strutil::contains_seq;
use crate::strutil::is_dec_digit;
use crate::strutil::lemma_lex_refl;
use crate::strutil::lemma_lex_total;
use crate::strutil::lemma_lex_trans;
use crate::strutil::lex_le;
use crate::strutil::lex_le_str;
use crate::strutil::lower_of;
use crate::strutil::lowercase;
use crate::strutil::prefix_of;
use crate::strutil::str_contains;
use crate::strutil::str_starts_with;

verus! {

/// The character sequences of a list of model names.
pub open spec fn model_views(ss: Seq<String>) -> Seq<Seq<char>> {
    ss.map(|i: int, s: String| s@)
}

/// A name whose lowercase form marks a model that cannot chat: image,
/// speech, embedding and other special-purpose families.
pub open spec fn deny_listed(l: Seq<char>) -> bool {
    ||| contains_seq(l, "image"@)
    ||| contains_seq(l, "dall"@)
    ||| contains_seq(l, "sora"@)
    ||| contains_seq(l, "whisper"@)
    ||| contains_seq(l, "tts"@)
    ||| contains_seq(l, "embedding"@)
    ||| contains_seq(l, "moderation"@)
    ||| contains_seq(l, "realtime"@)
    ||| contains_seq(l, "audio"@)
}

/// A name of one of the chat families: the general models, the reasoning
/// models (an `o` followed by a digit), and the legacy text models.
pub open spec fn allow_listed(id: Seq<char>) -> bool {
    ||| prefix_of(id, "gpt-"@)
    ||| (prefix_of(id, "o"@) && id.len() > 1 && is_dec_digit(id[1]))
    ||| prefix_of(id, "text-"@)
}

/// A model that is offered for translation, judged from its name and the
/// name's lowercase form.
pub open spec fn chat_model(id: Seq<char>, l: Seq<char>) -> bool {
    !deny_listed(l) && allow_listed(id)
}

fn is_deny_listed(l: &str) -> (r: bool)
    ensures
        r == deny_listed(l@),
{
    str_contains(l, "image") || str_contains(l, "dall") || str_contains(l, "sora") || str_contains(
        l,
        "whisper",
    ) || str_contains(l, "tts") || str_contains(l, "embedding") || str_contains(l, "moderation")
        || str_contains(l, "realtime") || str_contains(l, "audio")
}

fn is_allow_listed(id: &str) -> (r: bool)
    ensures
        r == allow_listed(id@),
{
    if str_starts_with(id, "gpt-") || str_starts_with(id, "text-") {
        return true;
    }
    if !str_starts_with(id, "o") {
        return false;
    }
    let n = id.unicode_len();
    if n <= 1 {
        return false;
    }
    let c = id.get_char(1);
    '0' <= c && c <= '9'
}

/// Keeps the models that can chat, in their given order.
pub fn filter_chat_models(ids: Vec<String>) -> (r: Vec<String>)
    ensures
        model_views(r@) == model_views(ids@).filter(
            |id: Seq<char>| chat_model(id, lower_of(id)),
        ),
{
    broadcast use vstd::seq_lib::group_filter_ensures;

    let ghost pred = |id: Seq<char>| chat_model(id, lower_of(id));
    let mut out: Vec<String> = Vec::new();
    let mut i: usize = 0;
    proof {
        assert(model_views(ids@.take(0)).filter(pred) =~= Seq::<Seq<char>>::empty());
        assert(model_views(out@) =~= model_views(ids@.take(0)).filter(pred));
    }
    while i < ids.len()
        invariant
            0 <= i <= ids@.len(),
            model_views(out@) == model_views(ids@.take(i as int)).filter(
                |id: Seq<char>| chat_model(id, lower_of(id)),
            ),
        decreases ids@.len() - i,
    {
        let ghost p = |id: Seq<char>| chat_model(id, lower_of(id));
        let ghost prefix = model_views(ids@.take(i as int));
        let ghost longer = model_views(ids@.take(i + 1));
        let low = lowercase(ids[i].as_str());
        let keep = !is_deny_listed(low.as_str()) && is_allow_listed(ids[i].as_str());
        proof {
            reveal(Seq::filter);
            assert(longer =~= prefix.push(ids@[i as int]@));
            assert(longer.drop_last() =~= prefix);
            assert(keep == p(ids@[i as int]@));
            if keep {
                assert(longer.filter(p) =~= prefix.filter(p).push(ids@[i as int]@));
            } else {
                assert(longer.filter(p) =~= prefix.filter(p));
            }
        }
        if keep {
            out.push(ids[i].clone());
            proof {
                assert(model_views(out@) =~= longer.filter(p));
            }
        }
        i = i + 1;
    }
    proof {
        assert(ids@.take(ids@.len() as int) =~= ids@);
    }
    out
}

/// How preferred a model family is: the current general family first, its
/// predecessor next, everything else after.
pub open spec fn model_rank(id: Seq<char>) -> int {
    if prefix_of(id, "gpt-4.1"@) {
        0
    } else if prefix_of(id, "gpt-4o"@) {
        1
    } else {
        2
    }
}

/// The order the model list is shown in: by rank, then lexicographically.
pub open spec fn model_le(a: Seq<char>, b: Seq<char>) -> bool {
    model_rank(a) < model_rank(b) || (model_rank(a) == model_rank(b) && lex_le(a, b))
}

/// Models ordered most preferred first.
pub open spec fn sorted_preferred_first(v: Seq<String>) -> bool {
    forall|i: int, j: int| 0 <= i < j < v.len() ==> model_le(#[trigger] v[i]@, #[trigger] v[j]@)
}

proof fn lemma_model_le_total(a: Seq<char>, b: Seq<char>)
    ensures
        model_le(a, b) || model_le(b, a),
{
    lemma_lex_total(a, b);
}

proof fn lemma_model_le_trans(a: Seq<char>, b: Seq<char>, c: Seq<char>)
    requires
        model_le(a, b),
        model_le(b, c),
    ensures
        model_le(a, c),
{
    if model_rank(a) == model_rank(b) && model_rank(b) == model_rank(c) {
        lemma_lex_trans(a, b, c);
    }
}

fn model_le_str(a: &str, b: &str) -> (r: bool)
    ensures
        r == model_le(a@, b@),
{
    let ra: u8 = if str_starts_with(a, "gpt-4.1") {
        0
    } else if str_starts_with(a, "gpt-4o") {
        1
    } else {
        2
    };
    let rb: u8 = if str_starts_with(b, "gpt-4.1") {
        0
    } else if str_starts_with(b, "gpt-4o") {
        1
    } else {
        2
    };
    if ra < rb {
        true
    } else if ra > rb {
        false
    } else {
        lex_le_str(a, b)
    }
}

/// Orders the offered models most preferred first.  The result holds
/// exactly the models given, rearranged.
pub fn sort_models_preferred_first(ids: Vec<String>) -> (r: Vec<String>)
    ensures
        sorted_preferred_first(r@),
        r@.to_multiset() == ids@.to_multiset(),
{
    broadcast use vstd::multiset::group_multiset_axioms;

    let mut rest = ids;
    let mut out: Vec<String> = Vec::new();
    let ghost everything = rest@.to_multiset();
    proof {
        vstd::seq_lib::lemma_multiset_commutative(Seq::<String>::empty(), rest@);
        assert(Seq::<String>::empty() + rest@ =~= rest@);
        assert(out@ =~= Seq::<String>::empty());
        assert(out@.to_multiset().add(rest@.to_multiset()) =~= everything);
    }
    while rest.len() > 0
        invariant
            out@.to_multiset().add(rest@.to_multiset()) == everything,
            sorted_preferred_first(out@),
            forall|k: int, l: int|
                0 <= k < out@.len() && 0 <= l < rest@.len() ==> model_le(
                    #[trigger] out@[k]@,
                    #[trigger] rest@[l]@,
                ),
        decreases rest.len(),
    {
        let mut best: usize = 0;
        let mut m: usize = 1;
        proof {
            lemma_lex_refl(rest@[0]@);
        }
        while m < rest.len()
            invariant
                rest@.len() > 0,
                0 <= best < rest@.len(),
                1 <= m <= rest@.len(),
                forall|l: int| 0 <= l < m ==> model_le(rest@[best as int]@, #[trigger] rest@[l]@),
            decreases rest.len() - m,
        {
            if !model_le_str(rest[best].as_str(), rest[m].as_str()) {
                proof {
                    lemma_model_le_total(rest@[best as int]@, rest@[m as int]@);
                    assert forall|l: int| 0 <= l < m implies model_le(
                        rest@[m as int]@,
                        #[trigger] rest@[l]@,
                    ) by {
                        lemma_model_le_trans(rest@[m as int]@, rest@[best as int]@, rest@[l]@);
                    };
                }
                best = m;
            }
            proof {
                lemma_lex_refl(rest@[best as int]@);
            }
            m = m + 1;
        }
        let ghost rest_before = rest@;
        let e = rest.remove(best);
        proof {
            rest_before.to_multiset_ensures();
            out@.to_multiset_ensures();
            assert(rest_before.contains(e)) by {
                assert(rest_before[best as int] == e);
            };
            assert(rest@ == rest_before.remove(best as int));
            assert(rest@.to_multiset() =~= rest_before.to_multiset().remove(e));
            assert(out@.push(e).to_multiset() =~= out@.to_multiset().insert(e));
            assert(out@.push(e).to_multiset().add(rest@.to_multiset()) =~= everything) by {
                assert(rest_before.to_multiset().count(e) > 0);
            };
            assert forall|l: int| 0 <= l < rest@.len() implies model_le(
                e@,
                #[trigger] rest@[l]@,
            ) by {
                if l < best as int {
                    assert(rest@[l] == rest_before[l]);
                } else {
                    assert(rest@[l] == rest_before[l + 1]);
                }
            };
        }
        out.push(e);
    }
    proof {
        vstd::seq_lib::lemma_multiset_commutative(out@, rest@);
        assert(out@ + rest@ =~= out@);
    }
    out
}


/// The instruction sent with a translation request: the target language and
/// the text, in the fixed frame.
pub fn translation_prompt(target_language: &str, text: &str) -> (r: String)
    ensures
        r@ == "Translate the following text to "@ + target_language@
            + ". Return only the translated text.\n\nTEXT:\n"@ + text@,
{
    let mut out = String::from_str("Translate the following text to ");
    out.append(target_language);
    out.append(". Return only the translated text.\n\nTEXT:\n");
    out.append(text);
    out
}

} // verus!
