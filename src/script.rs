//! The synthetic benchmark script.
//!
//! Two dialects are told apart by the shell's exact name: `ion` gets `let`
//! assignments, every other shell (`nu`, `bash`, ...) gets plain ones.

use vstd::prelude::*;
use vstd::string::StringExecFns;

verus! {

/// How many times the repeated unit follows the initializer.
pub const SCRIPT_REPEATS: usize = 100;

/// The initializer of the `ion` dialect.
pub open spec fn ion_init() -> Seq<char> {
    "let i=1"@
}

/// The unit that the `ion` dialect repeats.
pub open spec fn ion_unit() -> Seq<char> {
    "; let k=$((i+1)); let amt=$((k*i))"@
}

/// The initializer of the plain dialect, used by `nu` and every other shell.
pub open spec fn plain_init() -> Seq<char> {
    "i=1"@
}

/// The unit that the plain dialect repeats.
pub open spec fn plain_unit() -> Seq<char> {
    "; k=$((i+1)); amt=$((k*i))"@
}

/// `unit` written `n` times in a row.
pub open spec fn repeated(unit: Seq<char>, n: nat) -> Seq<char>
    decreases n,
{
    if n == 0 {
        Seq::empty()
    } else {
        repeated(unit, (n - 1) as nat) + unit
    }
}

/// The benchmark script for the shell named `shell`.
pub open spec fn default_script(shell: Seq<char>) -> Seq<char> {
    if shell == "ion"@ {
        ion_init() + repeated(ion_unit(), SCRIPT_REPEATS as nat)
    } else {
        plain_init() + repeated(plain_unit(), SCRIPT_REPEATS as nat)
    }
}

/// Writes the initializer, then the unit [`SCRIPT_REPEATS`] times.
fn build_script(init: &str, unit: &str) -> (r: String)
    ensures
        r@ == init@ + repeated(unit@, SCRIPT_REPEATS as nat),
{
    let mut script = init.to_owned();
    let mut k: usize = 0;
    while k < SCRIPT_REPEATS
        invariant
            0 <= k <= SCRIPT_REPEATS,
            script@ == init@ + repeated(unit@, k as nat),
        decreases SCRIPT_REPEATS - k,
    {
        script.append(unit);
        k = k + 1;
        assert(script@ =~= init@ + repeated(unit@, k as nat));
    }
    script
}

/// The benchmark script for the shell named `shell`.
pub fn default_script_for(shell: &String) -> (r: String)
    ensures
        r@ == default_script(shell@),
{
    let ion = "ion".to_owned();
    if *shell == ion {
        build_script("let i=1", "; let k=$((i+1)); let amt=$((k*i))")
    } else {
        build_script("i=1", "; k=$((i+1)); amt=$((k*i))")
    }
}

/// `n` units in a row are `n` times as long as one.
pub proof fn lemma_repeated_len(unit: Seq<char>, n: nat)
    ensures
        repeated(unit, n).len() == n * unit.len(),
    decreases n,
{
    let l = unit.len() as int;
    if n == 0 {
        assert(0 * l == 0) by (nonlinear_arith);
    } else {
        lemma_repeated_len(unit, (n - 1) as nat);
        assert(n * l == (n - 1) * l + l) by (nonlinear_arith);
    }
}

/// For `ion` the script starts with `let i=1`, followed by the `let` unit
/// written exactly [`SCRIPT_REPEATS`] times and nothing else.
pub proof fn lemma_ion_script()
    ensures
        default_script("ion"@).subrange(0, ion_init().len() as int) == ion_init(),
        default_script("ion"@) == ion_init() + repeated(ion_unit(), SCRIPT_REPEATS as nat),
        default_script("ion"@).len() == ion_init().len() + SCRIPT_REPEATS * ion_unit().len(),
{
    let s = default_script("ion"@);
    lemma_repeated_len(ion_unit(), SCRIPT_REPEATS as nat);
    assert(s.subrange(0, ion_init().len() as int) =~= ion_init());
}

/// For any shell but `ion` (`bash`, `nu`, ...) the script starts with `i=1`,
/// followed by the plain unit written exactly [`SCRIPT_REPEATS`] times and
/// nothing else.
pub proof fn lemma_plain_script(shell: Seq<char>)
    requires
        shell != "ion"@,
    ensures
        default_script(shell).subrange(0, plain_init().len() as int) == plain_init(),
        default_script(shell) == plain_init() + repeated(plain_unit(), SCRIPT_REPEATS as nat),
        default_script(shell).len() == plain_init().len() + SCRIPT_REPEATS * plain_unit().len(),
{
    let s = default_script(shell);
    lemma_repeated_len(plain_unit(), SCRIPT_REPEATS as nat);
    assert(s.subrange(0, plain_init().len() as int) =~= plain_init());
}

} // verus!
