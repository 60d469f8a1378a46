//! The `stripe-signature` header of a payment webhook.
//!
//! The header is a comma-separated list of `key=value` items.  The item
//! `t=<timestamp>` gives the time the provider signed the request, and each
//! item `v1=<signature>` a signature: the lower-case hex HMAC-SHA256, under
//! the endpoint's webhook secret, of `<timestamp>.<payload>`.  A request is
//! genuine when one of its `v1` signatures is the one its secret gives for
//! the first timestamp of the header and the body received.
use vstd::prelude::*;
use crate::crypto::{hmac_sha256, hmac_sha256_bytes, utf8, utf8_bytes};
use crate::hexenc::{encode_hex, hex_lower, is_lower_hex_char, lemma_hex_lower_chars};
use crate::text::{chars_of, lacks_char, lemma_split_append, push_str, split_parts, split_state, string_from_range};

verus! {

broadcast use vstd::string::group_string_axioms;

/// The comma-separated items of a header, in order (what `h.split(',')`
/// yields).
pub open spec fn header_items(h: Seq<char>) -> Seq<Seq<char>> {
    split_parts(h, ',')
}

pub open spec fn has_prefix(s: Seq<char>, p: Seq<char>) -> bool {
    p.len() <= s.len() && s.take(p.len() as int) == p
}

/// The rest of the first item that starts with `p`, if any.
pub open spec fn first_value(items: Seq<Seq<char>>, p: Seq<char>) -> Option<Seq<char>>
    decreases items.len(),
{
    if items.len() == 0 {
        None
    } else if has_prefix(items[0], p) {
        Some(items[0].skip(p.len() as int))
    } else {
        first_value(items.skip(1), p)
    }
}

/// The timestamp of a header: the value of its first `t=` item.
pub open spec fn header_timestamp(h: Seq<char>) -> Option<Seq<char>> {
    first_value(header_items(h), "t="@)
}

/// The signature the secret gives for a timestamp and a payload: the
/// lower-case hex HMAC-SHA256 of `<timestamp>.<payload>`.
pub open spec fn expected_signature(secret: Seq<char>, timestamp: Seq<char>, payload: Seq<char>) -> Seq<char> {
    hex_lower(hmac_sha256(utf8(secret), utf8(timestamp + "."@ + payload)))
}

/// Whether a header carries a timestamp and, among its items, the `v1`
/// signature that the secret gives for that timestamp and the payload.
pub open spec fn signature_valid(secret: Seq<char>, payload: Seq<char>, header: Seq<char>) -> bool {
    match header_timestamp(header) {
        None => false,
        Some(t) => header_items(header).contains("v1="@ + expected_signature(secret, t, payload)),
    }
}

/// A request signed as the provider signs it verifies: for a timestamp `t`
/// without a comma, the header `t=<t>,v1=<signature>` carrying the signature
/// that the secret gives for `t` and the payload is accepted.
pub proof fn law_signed_header_verifies(secret: Seq<char>, payload: Seq<char>, t: Seq<char>)
    requires
        lacks_char(t, ','),
    ensures
        signature_valid(secret, payload, "t="@ + t + ",v1="@ + expected_signature(secret, t, payload)),
{
    reveal_strlit("t=");
    reveal_strlit(",v1=");
    reveal_strlit("v1=");
    let sig = expected_signature(secret, t, payload);
    lemma_hex_lower_chars(hmac_sha256(utf8(secret), utf8(t + "."@ + payload)));
    let x = "t="@ + t;
    let y = "v1="@ + sig;
    assert(lacks_char(x, ',')) by {
        assert forall|i: int| 0 <= i < x.len() implies #[trigger] x[i] != ',' by {
            if i >= 2 {
                assert(x[i] == t[i - 2]);
            }
        }
    }
    assert(lacks_char(y, ',')) by {
        assert forall|i: int| 0 <= i < y.len() implies #[trigger] y[i] != ',' by {
            if i >= 3 {
                assert(y[i] == sig[i - 3]);
                assert(is_lower_hex_char(sig[i - 3]));
            }
        }
    }
    let h = "t="@ + t + ",v1="@ + sig;
    let empty = Seq::<char>::empty();
    lemma_split_append(empty, x, ',');
    assert(empty + x =~= x);
    assert((x + seq![',']).drop_last() =~= x);
    assert(split_state(x + seq![','], ',') == (seq![x], empty));
    lemma_split_append(x + seq![','], y, ',');
    assert(h =~= x + seq![','] + y);
    assert(empty + y =~= y);
    assert(header_items(h) =~= seq![x, y]);
    assert(has_prefix(x, "t="@)) by {
        assert(x.take(2) =~= "t="@);
    }
    assert(x.skip(2) =~= t);
    assert(header_timestamp(h) == Some(t));
    assert(header_items(h)[1] == y);
}

pub open spec fn item_views(items: Seq<Vec<char>>) -> Seq<Seq<char>> {
    items.map_values(|v: Vec<char>| v@)
}

/// The items of a header.
fn split_header(h: &str) -> (res: Vec<Vec<char>>)
    ensures
        item_views(res@) == header_items(h@),
{
    let c = chars_of(h);
    let mut items: Vec<Vec<char>> = Vec::new();
    let mut cur: Vec<char> = Vec::new();
    let mut i: usize = 0;
    assert(c@.take(0) =~= Seq::<char>::empty());
    while i < c.len()
        invariant
            c@ == h@,
            i <= c@.len(),
            item_views(items@) == split_state(c@.take(i as int), ',').0,
            cur@ == split_state(c@.take(i as int), ',').1,
        decreases c@.len() - i,
    {
        let ghost before = items@;
        assert(c@.take(i + 1).drop_last() =~= c@.take(i as int));
        assert(c@.take(i + 1).last() == c@[i as int]);
        if c[i] == ',' {
            let done = cur;
            items.push(done);
            cur = Vec::new();
            assert(item_views(items@) =~= item_views(before).push(done@));
        } else {
            cur.push(c[i]);
        }
        i += 1;
    }
    assert(c@.take(c@.len() as int) =~= c@);
    let ghost before = items@;
    items.push(cur);
    assert(item_views(items@) =~= item_views(before).push(split_state(h@, ',').1));
    items
}

fn chars_equal(a: &Vec<char>, b: &Vec<char>) -> (res: bool)
    ensures
        res == (a@ == b@),
{
    if a.len() != b.len() {
        return false;
    }
    let mut i: usize = 0;
    while i < a.len()
        invariant
            a@.len() == b@.len(),
            i <= a@.len(),
            forall|k: int| 0 <= k < i ==> a@[k] == b@[k],
        decreases a@.len() - i,
    {
        if a[i] != b[i] {
            return false;
        }
        i += 1;
    }
    assert(a@ =~= b@);
    true
}

/// The value of the first `t=` item among `items`.
fn find_timestamp(items: &Vec<Vec<char>>) -> (res: Option<String>)
    ensures
        match res {
            Some(t) => first_value(item_views(items@), "t="@) == Some(t@),
            None => first_value(item_views(items@), "t="@) is None,
        },
{
    proof {
        reveal_strlit("t=");
    }
    let ghost all = item_views(items@);
    let mut k: usize = 0;
    assert(all.skip(0) =~= all);
    while k < items.len()
        invariant
            all == item_views(items@),
            k <= items@.len(),
            first_value(all, "t="@) == first_value(all.skip(k as int), "t="@),
        decreases items@.len() - k,
    {
        proof {
            reveal_strlit("t=");
        }
        let it = &items[k];
        assert(all.skip(k as int)[0] == it@);
        let found = it.len() >= 2 && it[0] == 't' && it[1] == '=';
        if found {
            assert(it@.take(2) =~= "t="@);
            let t = string_from_range(it.as_slice(), 2, it.len());
            assert(t@ =~= it@.skip(2));
            return Some(t);
        }
        proof {
            if has_prefix(it@, "t="@) {
                assert(it@.take(2)[0] == it@[0] && it@.take(2)[1] == it@[1]);
            }
            assert(all.skip(k as int).skip(1) =~= all.skip(k + 1));
        }
        k += 1;
    }
    None
}

/// Whether `header` is a genuine signature of `payload` under `secret`.
pub fn verify_signature(secret: &str, payload: &str, header: &str) -> (res: bool)
    ensures
        res == signature_valid(secret@, payload@, header@),
{
    let items = split_header(header);
    let t = match find_timestamp(&items) {
        None => return false,
        Some(t) => t,
    };
    let mut signed = String::new();
    push_str(&mut signed, t.as_str());
    push_str(&mut signed, ".");
    push_str(&mut signed, payload);
    let key = utf8_bytes(secret);
    let msg = utf8_bytes(signed.as_str());
    let mac = hmac_sha256_bytes(key.as_slice(), msg.as_slice());
    let hex = encode_hex(mac.as_slice());
    let mut want_text = String::new();
    push_str(&mut want_text, "v1=");
    push_str(&mut want_text, hex.as_str());
    let want = chars_of(want_text.as_str());
    let ghost all = header_items(header@);
    assert(want@ == "v1="@ + expected_signature(secret@, t@, payload@));
    let mut k: usize = 0;
    while k < items.len()
        invariant
            all == item_views(items@),
            k <= items@.len(),
            all == header_items(header@),
            header_timestamp(header@) == Some(t@),
            want@ == "v1="@ + expected_signature(secret@, t@, payload@),
            forall|j: int| 0 <= j < k ==> all[j] != want@,
        decreases items@.len() - k,
    {
        if chars_equal(&items[k], &want) {
            assert(all[k as int] == want@);
            assert(all.contains(want@));
            return true;
        }
        k += 1;
    }
    false
}

} // verus!
