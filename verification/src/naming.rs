//! Deterministic workload naming: a run id maps to the orchestrator-side
//! workload name by appending the id's 32-digit lowercase hex form to a
//! fixed prefix. The mapping is injective, so distinct runs never share
//! a workload.

use vstd::prelude::*;
use crate::text::push_char;
use uuid::Uuid;

verus! {

/// Sixteen to the power `n`.
pub open spec fn pow16(n: nat) -> nat
    decreases n,
{
    if n == 0 {
        1
    } else {
        16 * pow16((n - 1) as nat)
    }
}

/// Lowercase hex digit character for a value below sixteen.
pub open spec fn hex_char(d: int) -> char {
    if d < 10 {
        ((48 + d) as u8) as char
    } else {
        ((87 + d) as u8) as char
    }
}

/// The low `n` hex digits of `v`, most significant first.
pub open spec fn spec_hex(v: nat, n: nat) -> Seq<char>
    decreases n,
{
    if n == 0 {
        Seq::empty()
    } else {
        spec_hex(v / 16, (n - 1) as nat) + seq![hex_char((v % 16) as int)]
    }
}

pub proof fn lemma_spec_hex_len(v: nat, n: nat)
    ensures
        spec_hex(v, n).len() == n,
    decreases n,
{
    if n > 0 {
        lemma_spec_hex_len(v / 16, (n - 1) as nat);
    }
}

proof fn lemma_hex_char_injective(x: int, y: int)
    requires
        0 <= x < 16,
        0 <= y < 16,
        hex_char(x) == hex_char(y),
    ensures
        x == y,
{
}

proof fn lemma_spec_hex_injective(a: nat, b: nat, n: nat)
    requires
        a < pow16(n),
        b < pow16(n),
        spec_hex(a, n) == spec_hex(b, n),
    ensures
        a == b,
    decreases n,
{
    if n == 0 {
    } else {
        lemma_spec_hex_len(a / 16, (n - 1) as nat);
        lemma_spec_hex_len(b / 16, (n - 1) as nat);
        let sa = spec_hex(a / 16, (n - 1) as nat);
        let sb = spec_hex(b / 16, (n - 1) as nat);
        assert(spec_hex(a, n).last() == hex_char((a % 16) as int));
        assert(spec_hex(b, n).last() == hex_char((b % 16) as int));
        lemma_hex_char_injective((a % 16) as int, (b % 16) as int);
        assert(sa =~= spec_hex(a, n).take(n - 1));
        assert(sb =~= spec_hex(b, n).take(n - 1));
        assert(a / 16 < pow16((n - 1) as nat)) by (nonlinear_arith)
            requires
                a < 16 * pow16((n - 1) as nat),
        ;
        assert(b / 16 < pow16((n - 1) as nat)) by (nonlinear_arith)
            requires
                b < 16 * pow16((n - 1) as nat),
        ;
        lemma_spec_hex_injective(a / 16, b / 16, (n - 1) as nat);
    }
}

/// The orchestrator-side workload name for a run id: the fixed prefix
/// followed by the id's 32 lowercase hex digits.
pub open spec fn spec_workload_name(id: u128) -> Seq<char> {
    "sparktest-job-"@ + spec_hex(id as nat, 32)
}

/// Law: the workload name is a pure function of the run id, and distinct
/// ids always give distinct names, so no collision handling is needed.
pub proof fn lemma_workload_name_injective(a: u128, b: u128)
    requires
        spec_workload_name(a) == spec_workload_name(b),
    ensures
        a == b,
{
    lemma_spec_hex_len(a as nat, 32);
    lemma_spec_hex_len(b as nat, 32);
    let p = "sparktest-job-"@;
    assert(spec_hex(a as nat, 32) =~= spec_workload_name(a).skip(p.len() as int));
    assert(spec_hex(b as nat, 32) =~= spec_workload_name(b).skip(p.len() as int));
    assert(pow16(32) == 0x100000000000000000000000000000000) by {
        reveal_with_fuel(pow16, 33);
    }
    lemma_spec_hex_injective(a as nat, b as nat, 32);
}

fn hex_digit(d: u8) -> (c: char)
    requires
        d < 16,
    ensures
        c == hex_char(d as int),
{
    if d < 10 {
        (48 + d) as char
    } else {
        (87 + d) as char
    }
}

fn hex_digits(v: u128, n: usize) -> (r: String)
    ensures
        r@ == spec_hex(v as nat, n as nat),
    decreases n,
{
    if n == 0 {
        String::new()
    } else {
        let mut s = hex_digits(v / 16, n - 1);
        push_char(&mut s, hex_digit((v % 16) as u8));
        s
    }
}

/// Relies on uuid's Uuid::new_v4: a freshly drawn random run id;
/// nothing is promised of the value.
#[verifier::external_body]
pub fn fresh_run_id() -> u128 {
    Uuid::new_v4().as_u128()
}

/// Derives the workload name for a run id.
pub fn workload_name(id: u128) -> (r: String)
    ensures
        r@ == spec_workload_name(id),
{
    let mut s = String::from_str("sparktest-job-");
    let digits = hex_digits(id, 32);
    s.append(digits.as_str());
    s
}

} // verus!
