//! What a signature binds: the signature base determines the method, path,
//! status, content digest, key label and creation time it was made from, so
//! a signature over one response cannot be replayed for a response, or a
//! key slot, that differs in any of them.

use vstd::prelude::*;
use crate::text::{decimal, digit_char};
use crate::codec::{base64_encode, sextet_char};
use crate::codec::sha256_digest;
use vstd::utf8::encode_utf8;
use crate::tvc_axum::response_signing::{
    content_digest_text, signature_alg, signature_base_text, signature_components,
    signature_input_text, signed_bytes,
};

verus! {

/// `s` holds no character `c`.
pub open spec fn lacks(s: Seq<char>, c: char) -> bool {
    forall|i: int| 0 <= i < s.len() ==> #[trigger] s[i] != c
}

/// The number written in decimal digits.
pub open spec fn decimal_value(s: Seq<char>) -> nat
    decreases s.len(),
{
    if s.len() == 0 {
        0
    } else {
        decimal_value(s.drop_last()) * 10 + ((s.last() as nat) - 48) as nat
    }
}

proof fn lemma_decimal_value(n: nat)
    ensures
        decimal_value(decimal(n)) == n,
    decreases n,
{
    assert(digit_char(n % 10) as nat == 48 + n % 10);
    assert(decimal(n).len() > 0);
    assert(decimal_value(decimal(n)) == decimal_value(decimal(n).drop_last()) * 10 + ((
    decimal(n).last() as nat) - 48) as nat);
    if n >= 10 {
        lemma_decimal_value(n / 10);
        assert(decimal(n).drop_last() =~= decimal(n / 10));
        assert(decimal(n).last() == digit_char(n % 10));
        assert(n == (n / 10) * 10 + n % 10);
    } else {
        assert(decimal(n).drop_last() =~= Seq::<char>::empty());
        assert(decimal_value(Seq::<char>::empty()) == 0);
        assert(decimal(n).last() == digit_char(n));
    }
}

proof fn lemma_decimal_digits(n: nat)
    ensures
        forall|i: int| 0 <= i < decimal(n).len() ==> 48 <= #[trigger] (decimal(n)[i] as u32) <= 57,
    decreases n,
{
    if n >= 10 {
        lemma_decimal_digits(n / 10);
        assert forall|i: int| 0 <= i < decimal(n).len() implies 48 <= #[trigger] (decimal(n)[i] as u32) <= 57 by {
            if i < decimal(n / 10).len() {
                assert(decimal(n)[i] == decimal(n / 10)[i]);
            }
        }
    }
}

/// Decimal renderings of different numbers differ.
pub proof fn lemma_decimal_injective(a: nat, b: nat)
    requires
        decimal(a) == decimal(b),
    ensures
        a == b,
{
    lemma_decimal_value(a);
    lemma_decimal_value(b);
}

/// Decimal renderings hold neither a newline nor a semicolon.
pub proof fn lemma_decimal_plain(n: nat)
    ensures
        lacks(decimal(n), '\n'),
        lacks(decimal(n), ';'),
{
    lemma_decimal_digits(n);
    assert forall|i: int| 0 <= i < decimal(n).len() implies #[trigger] decimal(n)[i] != '\n'
        && decimal(n)[i] != ';' by {
        assert(48 <= (decimal(n)[i] as u32) <= 57);
    }
}

/// Splitting at the first `c`: when neither `x` nor `x2` holds `c`,
/// `x + [c] + y == x2 + [c] + y2` gives `x == x2` and `y == y2`.
proof fn lemma_split_at_first(x: Seq<char>, y: Seq<char>, x2: Seq<char>, y2: Seq<char>, c: char)
    requires
        lacks(x, c),
        lacks(x2, c),
        x + (seq![c] + y) == x2 + (seq![c] + y2),
    ensures
        x == x2,
        y == y2,
{
    let t = x + (seq![c] + y);
    let t2 = x2 + (seq![c] + y2);
    if x.len() < x2.len() {
        assert(t[x.len() as int] == c);
        assert(t2[x.len() as int] == x2[x.len() as int]);
    } else if x2.len() < x.len() {
        assert(t2[x2.len() as int] == c);
        assert(t[x2.len() as int] == x[x2.len() as int]);
    }
    assert(x =~= t.subrange(0, x.len() as int));
    assert(x2 =~= t2.subrange(0, x2.len() as int));
    assert(y =~= t.subrange(x.len() as int + 1, t.len() as int));
    assert(y2 =~= t2.subrange(x2.len() as int + 1, t.len() as int));
}

/// A common prefix can be dropped.
proof fn lemma_drop_prefix(p: Seq<char>, a: Seq<char>, b: Seq<char>)
    requires
        p + a == p + b,
    ensures
        a == b,
{
    assert(a =~= (p + a).subrange(p.len() as int, (p + a).len() as int));
    assert(b =~= (p + b).subrange(p.len() as int, (p + b).len() as int));
}

/// A common suffix can be dropped.
proof fn lemma_drop_suffix(a: Seq<char>, b: Seq<char>, q: Seq<char>)
    requires
        a + q == b + q,
    ensures
        a == b,
{
    assert(a =~= (a + q).subrange(0, a.len() as int));
    assert(b =~= (b + q).subrange(0, b.len() as int));
}

/// The signature base with its lines nested to the right, each line break
/// starting the next piece.
pub open spec fn base_nested(
    method: Seq<char>,
    path: Seq<char>,
    status: nat,
    digest: Seq<char>,
    label: Seq<char>,
    created: nat,
) -> Seq<char> {
    let nl = seq!['\n'];
    "\"@method\": "@ + (method + (nl + ("\"@path\": "@ + (path + (nl + ("\"@status\": "@ + (
    decimal(status) + (nl + ("\"content-digest\": "@ + (digest + (nl + (
    "\"@signature-params\": "@ + signature_input_text(label, created)))))))))))))
}

#[verifier::rlimit(50)]
proof fn lemma_base_nested(
    method: Seq<char>,
    path: Seq<char>,
    status: nat,
    digest: Seq<char>,
    label: Seq<char>,
    created: nat,
)
    ensures
        signature_base_text(method, path, status, digest, label, created) == base_nested(
            method,
            path,
            status,
            digest,
            label,
            created,
        ),
{
    reveal_strlit("\n\"@path\": ");
    reveal_strlit("\"@path\": ");
    reveal_strlit("\n\"@status\": ");
    reveal_strlit("\"@status\": ");
    reveal_strlit("\n\"content-digest\": ");
    reveal_strlit("\"content-digest\": ");
    reveal_strlit("\n\"@signature-params\": ");
    reveal_strlit("\"@signature-params\": ");
    assert(signature_base_text(method, path, status, digest, label, created) =~= base_nested(
        method,
        path,
        status,
        digest,
        label,
        created,
    ));
}

/// The signature parameters with the creation time split off at the `;`
/// that follows it.
#[verifier::rlimit(50)]
proof fn lemma_input_nested(label: Seq<char>, created: nat)
    ensures
        signature_input_text(label, created) == (signature_components() + ";created="@) + (decimal(
            created,
        ) + (seq![';'] + ("keyid=\""@ + label + "\";alg=\""@ + signature_alg() + "\""@))),
{
    reveal_strlit(";keyid=\"");
    reveal_strlit("keyid=\"");
    assert(signature_input_text(label, created) =~= (signature_components() + ";created="@) + (
    decimal(created) + (seq![';'] + ("keyid=\""@ + label + "\";alg=\""@ + signature_alg()
        + "\""@))));
}

/// Equal signature parameters were made for the same key label at the same
/// time.
proof fn lemma_input_injective(label1: Seq<char>, created1: nat, label2: Seq<char>, created2: nat)
    requires
        signature_input_text(label1, created1) == signature_input_text(label2, created2),
    ensures
        label1 == label2,
        created1 == created2,
{
    lemma_input_nested(label1, created1);
    lemma_input_nested(label2, created2);
    lemma_decimal_plain(created1);
    lemma_decimal_plain(created2);
    let pre = signature_components() + ";created="@;
    let suf = "\";alg=\""@ + signature_alg() + "\""@;
    let w1 = "keyid=\""@ + label1 + "\";alg=\""@ + signature_alg() + "\""@;
    let w2 = "keyid=\""@ + label2 + "\";alg=\""@ + signature_alg() + "\""@;
    lemma_drop_prefix(pre, decimal(created1) + (seq![';'] + w1), decimal(created2) + (seq![';'] + w2));
    lemma_split_at_first(decimal(created1), w1, decimal(created2), w2, ';');
    lemma_decimal_injective(created1, created2);
    assert(w1 =~= "keyid=\""@ + (label1 + suf));
    assert(w2 =~= "keyid=\""@ + (label2 + suf));
    lemma_drop_prefix("keyid=\""@, label1 + suf, label2 + suf);
    lemma_drop_suffix(label1, label2, suf);
}

/// The signature parameters name their key label and creation time: two
/// parameter texts are equal exactly when label and time are.
pub proof fn law_signature_input_determines_label_and_time(
    label1: Seq<char>,
    created1: nat,
    label2: Seq<char>,
    created2: nat,
)
    ensures
        signature_input_text(label1, created1) == signature_input_text(label2, created2) <==> (
        label1 == label2 && created1 == created2),
{
    if signature_input_text(label1, created1) == signature_input_text(label2, created2) {
        lemma_input_injective(label1, created1, label2, created2);
    }
}

/// `encode_utf8` of a concatenation is the concatenation of the encodings.
proof fn lemma_encode_utf8_concat(a: Seq<char>, b: Seq<char>)
    ensures
        encode_utf8(a + b) == encode_utf8(a) + encode_utf8(b),
    decreases a.len(),
{
    if a.len() == 0 {
        assert(a + b =~= b);
    } else {
        lemma_encode_utf8_concat(a.drop_first(), b);
        assert((a + b).drop_first() =~= a.drop_first() + b);
        assert((a + b)[0] == a[0]);
        assert(encode_utf8(a + b) =~= encode_utf8(a) + encode_utf8(b));
    }
}

/// Every signature base ends with the signature parameters of its key label
/// and time, in text and in the bytes that are signed.
pub proof fn law_signature_base_ends_with_input(
    method: Seq<char>,
    path: Seq<char>,
    status: nat,
    digest: Seq<char>,
    label: Seq<char>,
    created: nat,
)
    ensures
        signature_input_text(label, created).is_suffix_of(
            signature_base_text(method, path, status, digest, label, created),
        ),
        encode_utf8(signature_input_text(label, created)).is_suffix_of(
            encode_utf8(signature_base_text(method, path, status, digest, label, created)),
        ),
{
    let input = signature_input_text(label, created);
    let head = "\"@method\": "@ + method + "\n\"@path\": "@ + path + "\n\"@status\": "@ + decimal(
        status,
    ) + "\n\"content-digest\": "@ + digest + "\n\"@signature-params\": "@;
    assert(signature_base_text(method, path, status, digest, label, created) == head + input);
    assert(input =~= (head + input).subrange(head.len() as int, (head + input).len() as int));
    lemma_encode_utf8_concat(head, input);
    let eh = encode_utf8(head);
    let ei = encode_utf8(input);
    assert(ei =~= (eh + ei).subrange(eh.len() as int, (eh + ei).len() as int));
}

/// The signature base binds every signed component: two bases are equal
/// only when method, path, status, digest, key label and creation time are
/// all equal (method, path and digest are single header lines, so they hold
/// no newline).  A signature made for one key label therefore never covers
/// the base of another.
pub proof fn law_signature_base_binds_components(
    method1: Seq<char>,
    path1: Seq<char>,
    status1: nat,
    digest1: Seq<char>,
    label1: Seq<char>,
    created1: nat,
    method2: Seq<char>,
    path2: Seq<char>,
    status2: nat,
    digest2: Seq<char>,
    label2: Seq<char>,
    created2: nat,
)
    requires
        lacks(method1, '\n'),
        lacks(path1, '\n'),
        lacks(digest1, '\n'),
        lacks(method2, '\n'),
        lacks(path2, '\n'),
        lacks(digest2, '\n'),
        signature_base_text(method1, path1, status1, digest1, label1, created1)
            == signature_base_text(method2, path2, status2, digest2, label2, created2),
    ensures
        method1 == method2,
        path1 == path2,
        status1 == status2,
        digest1 == digest2,
        label1 == label2,
        created1 == created2,
{
    let nl = seq!['\n'];
    lemma_base_nested(method1, path1, status1, digest1, label1, created1);
    lemma_base_nested(method2, path2, status2, digest2, label2, created2);
    lemma_decimal_plain(status1);
    lemma_decimal_plain(status2);
    let in1 = signature_input_text(label1, created1);
    let in2 = signature_input_text(label2, created2);
    let u1 = "\"content-digest\": "@ + (digest1 + (nl + ("\"@signature-params\": "@ + in1)));
    let u2 = "\"content-digest\": "@ + (digest2 + (nl + ("\"@signature-params\": "@ + in2)));
    let s1 = "\"@status\": "@ + (decimal(status1) + (nl + u1));
    let s2 = "\"@status\": "@ + (decimal(status2) + (nl + u2));
    let r1 = "\"@path\": "@ + (path1 + (nl + s1));
    let r2 = "\"@path\": "@ + (path2 + (nl + s2));
    lemma_drop_prefix("\"@method\": "@, method1 + (nl + r1), method2 + (nl + r2));
    lemma_split_at_first(method1, r1, method2, r2, '\n');
    lemma_drop_prefix("\"@path\": "@, path1 + (nl + s1), path2 + (nl + s2));
    lemma_split_at_first(path1, s1, path2, s2, '\n');
    lemma_drop_prefix("\"@status\": "@, decimal(status1) + (nl + u1), decimal(status2) + (nl + u2));
    lemma_split_at_first(decimal(status1), u1, decimal(status2), u2, '\n');
    lemma_decimal_injective(status1, status2);
    let v1 = "\"@signature-params\": "@ + in1;
    let v2 = "\"@signature-params\": "@ + in2;
    lemma_drop_prefix("\"content-digest\": "@, digest1 + (nl + v1), digest2 + (nl + v2));
    lemma_split_at_first(digest1, v1, digest2, v2, '\n');
    lemma_drop_prefix("\"@signature-params\": "@, in1, in2);
    lemma_input_injective(label1, created1, label2, created2);
}


proof fn lemma_base64_no_newline(data: Seq<u8>, url_safe: bool, pad: bool)
    ensures
        lacks(base64_encode(data, url_safe, pad), '\n'),
    decreases data.len(),
{
    let e = base64_encode(data, url_safe, pad);
    assert forall|v: nat, u: bool| #[trigger] sextet_char(v, u) != '\n' by {}
    if data.len() >= 3 {
        lemma_base64_no_newline(data.subrange(3, data.len() as int), url_safe, pad);
    }
    assert forall|i: int| 0 <= i < e.len() implies #[trigger] e[i] != '\n' by {
        if data.len() >= 3 && i >= 4 {
            assert(e[i] == base64_encode(data.subrange(3, data.len() as int), url_safe, pad)[i - 4]);
        }
    }
}

proof fn lemma_digest_no_newline(body: Seq<u8>)
    ensures
        lacks(content_digest_text(body), '\n'),
{
    reveal_strlit("sha-256=:");
    reveal_strlit(":");
    let b = base64_encode(sha256_digest(body), false, true);
    lemma_base64_no_newline(sha256_digest(body), false, true);
    let t = content_digest_text(body);
    assert forall|i: int| 0 <= i < t.len() implies #[trigger] t[i] != '\n' by {
        if 9 <= i < 9 + b.len() {
            assert(t[i] == b[i - 9]);
        }
    }
}

/// A response signature binds the request method and path, the response
/// status, the body's content digest, the key label and the creation time:
/// the bytes signed for two responses are equal only when all of these are.
pub proof fn law_signed_bytes_bind_response(
    method1: Seq<char>,
    path1: Seq<char>,
    status1: nat,
    body1: Seq<u8>,
    label1: Seq<char>,
    created1: nat,
    method2: Seq<char>,
    path2: Seq<char>,
    status2: nat,
    body2: Seq<u8>,
    label2: Seq<char>,
    created2: nat,
)
    requires
        lacks(method1, '\n'),
        lacks(path1, '\n'),
        lacks(method2, '\n'),
        lacks(path2, '\n'),
        signed_bytes(method1, path1, status1, body1, label1, created1) == signed_bytes(
            method2,
            path2,
            status2,
            body2,
            label2,
            created2,
        ),
    ensures
        method1 == method2,
        path1 == path2,
        status1 == status2,
        content_digest_text(body1) == content_digest_text(body2),
        label1 == label2,
        created1 == created2,
{
    broadcast use vstd::utf8::encode_utf8_decode_utf8;

    let t1 = signature_base_text(method1, path1, status1, content_digest_text(body1), label1, created1);
    let t2 = signature_base_text(method2, path2, status2, content_digest_text(body2), label2, created2);
    assert(vstd::utf8::decode_utf8(vstd::utf8::encode_utf8(t1)) == t1);
    assert(vstd::utf8::decode_utf8(vstd::utf8::encode_utf8(t2)) == t2);
    lemma_digest_no_newline(body1);
    lemma_digest_no_newline(body2);
    law_signature_base_binds_components(
        method1,
        path1,
        status1,
        content_digest_text(body1),
        label1,
        created1,
        method2,
        path2,
        status2,
        content_digest_text(body2),
        label2,
        created2,
    );
}

} // verus!
