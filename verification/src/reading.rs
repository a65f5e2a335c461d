//! Reading texts and JSON documents back: what a text means as a number, and what entries a
//! document has.

use crate::json::Json;
use crate::text::dec;
use crate::text::digit;
use crate::text::hex;
use crate::text::signed_dec;
use vstd::arithmetic::power2::lemma2_to64;
use vstd::arithmetic::power2::lemma_pow2_adds;
use vstd::arithmetic::power2::pow2;
use vstd::prelude::*;

verus! {

// ---- Numbers ----

/// The value of a digit, by its place among the ASCII characters.
pub open spec fn digit_value(c: char) -> int {
    if '0' <= c && c <= '9' {
        c as int - '0' as int
    } else if 'a' <= c && c <= 'f' {
        c as int - 'a' as int + 10
    } else {
        -1
    }
}

/// The number that a text of digits stands for.
pub open spec fn number(s: Seq<char>, base: int) -> int
    decreases s.len(),
{
    if s.len() == 0 {
        0
    } else {
        number(s.drop_last(), base) * base + digit_value(s.last())
    }
}

/// All characters are digits of the base.
pub open spec fn all_digits(s: Seq<char>, base: int) -> bool {
    forall|i: int| 0 <= i < s.len() ==> 0 <= #[trigger] digit_value(s[i]) < base
}

/// `s` is the decimal text of `n`: digits only, none too many in front, and they stand for `n`.
pub open spec fn is_decimal(s: Seq<char>, n: nat) -> bool {
    &&& s.len() >= 1
    &&& all_digits(s, 10)
    &&& s[0] == '0' ==> s.len() == 1
    &&& number(s, 10) == n
}

/// `s` is the decimal text of `v`, with a minus sign in front where `v` is negative.
pub open spec fn is_integer(s: Seq<char>, v: int) -> bool {
    if v < 0 {
        &&& s.len() >= 1
        &&& s[0] == '-'
        &&& is_decimal(s.drop_first(), (-v) as nat)
    } else {
        is_decimal(s, v as nat)
    }
}

/// `s` is a hash as sixteen hexadecimal digits.
pub open spec fn is_hash(s: Seq<char>, hash: u64) -> bool {
    &&& s.len() == 16
    &&& all_digits(s, 16)
    &&& number(s, 16) == hash
}

/// A digit has the value that it was chosen for.
proof fn lemma_digit_value(d: nat)
    requires
        d < 16,
    ensures
        digit_value(digit(d)) == d,
{
}

/// A number in decimal is its decimal text.
pub proof fn law_decimal(n: nat)
    ensures
        is_decimal(dec(n), n),
    decreases n,
{
    lemma_digit_value(n % 10);
    let s = dec(n);
    if n >= 10 {
        law_decimal(n / 10);
        let init = dec(n / 10);
        assert(s.drop_last() =~= init);
        assert(s.last() == digit(n % 10));
        assert forall|i: int| 0 <= i < s.len() implies 0 <= #[trigger] digit_value(s[i]) < 10 by {
            if i < init.len() {
                assert(s[i] == init[i]);
            }
        }
        assert(s[0] == init[0]);
        assert(number(s, 10) == number(init, 10) * 10 + digit_value(s.last()));
        if init[0] == '0' {
            assert(init.len() == 1);
            assert(number(init.drop_last(), 10) == 0);
            assert(number(init, 10) == 0);
        }
    } else {
        assert(s.drop_last() =~= Seq::<char>::empty());
        assert(number(s.drop_last(), 10) == 0);
        assert(s.last() == digit(n));
    }
}

/// An integer in decimal is its decimal text, signed.
pub proof fn law_integer(v: int)
    ensures
        is_integer(signed_dec(v), v),
{
    reveal_strlit("-");
    if v < 0 {
        law_decimal((-v) as nat);
        assert(signed_dec(v).drop_first() =~= dec((-v) as nat));
    } else {
        law_decimal(v as nat);
    }
}

/// The hexadecimal digits of a number stand for it, where there are enough of them.
proof fn lemma_hex(n: nat, width: nat)
    requires
        n < pow2(4 * width),
    ensures
        hex(n, width).len() == width,
        all_digits(hex(n, width), 16),
        number(hex(n, width), 16) == n,
    decreases width,
{
    lemma2_to64();
    if width > 0 {
        let w = (width - 1) as nat;
        lemma_pow2_adds(4 * w, 4);
        lemma_hex(n / 16, w);
        lemma_digit_value(n % 16);
        let s = hex(n, width);
        let init = hex(n / 16, w);
        assert(s.drop_last() =~= init);
        assert(s.last() == digit(n % 16));
        assert forall|i: int| 0 <= i < s.len() implies 0 <= #[trigger] digit_value(s[i]) < 16 by {
            if i < init.len() {
                assert(s[i] == init[i]);
            }
        }
        assert(number(s, 16) == number(init, 16) * 16 + digit_value(s.last()));
    }
}

/// A hash in hexadecimal reads back.
pub proof fn law_hash(hash: u64)
    ensures
        is_hash(hex(hash as nat, 16), hash),
{
    lemma2_to64();
    lemma_hex(hash as nat, 16);
}

// ---- Documents ----

/// The document is an object that holds `v` under `key`.
pub open spec fn shows(j: Json, key: &str, v: Json) -> bool {
    &&& j matches Json::Obj(entries)
    &&& entries.dom().contains(key@)
    &&& entries[key@] == v
}

/// The document is an object with these keys and no others.
pub open spec fn has_keys(j: Json, keys: Set<Seq<char>>) -> bool {
    &&& j matches Json::Obj(entries)
    &&& entries.dom() =~= keys
}

/// What the document holds under `key`.
pub open spec fn entry(j: Json, key: &str) -> Json {
    j->Obj_0[key@]
}

/// A mark by which the keys of one object are told apart: its length and three of its
/// characters.
#[verifier::opaque]
pub closed spec fn mark(s: Seq<char>) -> int {
    s.len() * 0x1_0000_0000_0000 + (s[0] as int) * 0x1_0000_0000 + (s[1] as int) * 0x1_0000 + (
    s[s.len() - 1] as int)
}

/// The marks of some keys.
proof fn lemma_marks_a()
    ensures
        mark("kind"@) == 1126359475224676,
        mark("ty"@) == 563448177557625,
        mark("tys"@) == 844923154268275,
        mark("size"@) == 1126393834963045,
        mark("mutability"@) == 2815217926209657,
        mark("name"@) == 1126372359602277,
        mark("orig_def_id"@) == 3096701492658276,
        mark("substs"@) == 1689343789170803,
        mark("defid"@) == 1407804386902116,
        mark("upvar_tys"@) == 2533777308909683,
        mark("trait_id"@) == 2252298037362788,
        mark("predicates"@) == 2815230810914931,
        mark("signature"@) == 2533768718516325,
{
    reveal(mark);
    reveal_strlit("kind");
    reveal_strlit("ty");
    reveal_strlit("tys");
    reveal_strlit("size");
    reveal_strlit("mutability");
    reveal_strlit("name");
    reveal_strlit("orig_def_id");
    reveal_strlit("substs");
    reveal_strlit("defid");
    reveal_strlit("upvar_tys");
    reveal_strlit("trait_id");
    reveal_strlit("predicates");
    reveal_strlit("signature");
}

/// The marks of some keys.
proof fn lemma_marks_b()
    ensures
        mark("intkind"@) == 1970775815749732,
        mark("uintkind"@) == 2252302331740260,
        mark("inputs"@) == 1689300839039091,
        mark("output"@) == 1689326609301620,
        mark("abi"@) == 844841548382313,
        mark("trait"@) == 1407873107230836,
        mark("proj"@) == 1126380950650986,
        mark("rhs_ty"@) == 1689339493351545,
        mark("rendered"@) == 2252289446576228,
        mark("val"@) == 844931742629996,
        mark("def_id"@) == 1689279363612772,
        mark("item_id"@) == 1970775816142948,
        mark("index"@) == 1407825862328440,
{
    reveal(mark);
    reveal_strlit("intkind");
    reveal_strlit("uintkind");
    reveal_strlit("inputs");
    reveal_strlit("output");
    reveal_strlit("abi");
    reveal_strlit("trait");
    reveal_strlit("proj");
    reveal_strlit("rhs_ty");
    reveal_strlit("rendered");
    reveal_strlit("val");
    reveal_strlit("def_id");
    reveal_strlit("item_id");
    reveal_strlit("index");
}

/// The marks of some keys.
proof fn lemma_marks_c()
    ensures
        mark("call_once"@) == 2533699998515301,
        mark("callees"@) == 1970750045094003,
        mark("discr"@) == 1407804387164274,
        mark("fields"@) == 1689287953809523,
        mark("ctor_kind"@) == 2533699999760484,
        mark("discr_value"@) == 3096654247428197,
        mark("inhabited"@) == 2533725769171044,
        mark("variants"@) == 2252306626183283,
        mark("repr_transparent"@) == 4504089260261492,
        mark("orig_substs"@) == 3096701492658291,
        mark("discr_ty"@) == 2252229317296249,
        mark("variant"@) == 1970831649472628,
        mark("upvars"@) == 1689352378777715,
{
    reveal(mark);
    reveal_strlit("call_once");
    reveal_strlit("callees");
    reveal_strlit("discr");
    reveal_strlit("fields");
    reveal_strlit("ctor_kind");
    reveal_strlit("discr_value");
    reveal_strlit("inhabited");
    reveal_strlit("variants");
    reveal_strlit("repr_transparent");
    reveal_strlit("orig_substs");
    reveal_strlit("discr_ty");
    reveal_strlit("variant");
    reveal_strlit("upvars");
}

/// The marks of some keys.
proof fn lemma_marks_d()
    ensures
        mark("element_ty"@) == 2815183565881465,
        mark("elements"@) == 2252233612460147,
        mark("instance"@) == 2252250792460389,
        mark("len"@) == 844888793219182,
        mark("debug_val"@) == 2533704293744748,
        mark("mutable"@) == 1970792996077669,
        mark("trait_pred"@) == 2815247990784100,
        mark("projection_ty"@) == 3659655741046905,
        mark("params"@) == 1689330902958195,
        mark("param_def"@) == 2533755833090150,
        mark("adt"@) == 844841548513396,
        mark("ops"@) == 844901678841971,
{
    reveal(mark);
    reveal_strlit("element_ty");
    reveal_strlit("elements");
    reveal_strlit("instance");
    reveal_strlit("len");
    reveal_strlit("debug_val");
    reveal_strlit("mutable");
    reveal_strlit("trait_pred");
    reveal_strlit("projection_ty");
    reveal_strlit("params");
    reveal_strlit("param_def");
    reveal_strlit("adt");
    reveal_strlit("ops");
}

/// The keys of objects are told apart.
pub proof fn lemma_keys()
    ensures
        mark("kind"@) == 1126359475224676,
        mark("ty"@) == 563448177557625,
        mark("tys"@) == 844923154268275,
        mark("size"@) == 1126393834963045,
        mark("mutability"@) == 2815217926209657,
        mark("name"@) == 1126372359602277,
        mark("orig_def_id"@) == 3096701492658276,
        mark("substs"@) == 1689343789170803,
        mark("defid"@) == 1407804386902116,
        mark("upvar_tys"@) == 2533777308909683,
        mark("trait_id"@) == 2252298037362788,
        mark("predicates"@) == 2815230810914931,
        mark("signature"@) == 2533768718516325,
        mark("intkind"@) == 1970775815749732,
        mark("uintkind"@) == 2252302331740260,
        mark("inputs"@) == 1689300839039091,
        mark("output"@) == 1689326609301620,
        mark("abi"@) == 844841548382313,
        mark("trait"@) == 1407873107230836,
        mark("proj"@) == 1126380950650986,
        mark("rhs_ty"@) == 1689339493351545,
        mark("rendered"@) == 2252289446576228,
        mark("val"@) == 844931742629996,
        mark("def_id"@) == 1689279363612772,
        mark("item_id"@) == 1970775816142948,
        mark("index"@) == 1407825862328440,
        mark("call_once"@) == 2533699998515301,
        mark("callees"@) == 1970750045094003,
        mark("discr"@) == 1407804387164274,
        mark("fields"@) == 1689287953809523,
        mark("ctor_kind"@) == 2533699999760484,
        mark("discr_value"@) == 3096654247428197,
        mark("inhabited"@) == 2533725769171044,
        mark("variants"@) == 2252306626183283,
        mark("repr_transparent"@) == 4504089260261492,
        mark("orig_substs"@) == 3096701492658291,
        mark("discr_ty"@) == 2252229317296249,
        mark("variant"@) == 1970831649472628,
        mark("upvars"@) == 1689352378777715,
        mark("element_ty"@) == 2815183565881465,
        mark("elements"@) == 2252233612460147,
        mark("instance"@) == 2252250792460389,
        mark("len"@) == 844888793219182,
        mark("debug_val"@) == 2533704293744748,
        mark("mutable"@) == 1970792996077669,
        mark("trait_pred"@) == 2815247990784100,
        mark("projection_ty"@) == 3659655741046905,
        mark("params"@) == 1689330902958195,
        mark("param_def"@) == 2533755833090150,
        mark("adt"@) == 844841548513396,
        mark("ops"@) == 844901678841971,
{
    lemma_marks_a();
    lemma_marks_b();
    lemma_marks_c();
    lemma_marks_d();
}

} // verus!
