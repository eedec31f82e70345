//! Sources of the sandboxed scripts sent to the page.
use vstd::prelude::*;

verus! {

pub open spec fn digit_char(d: nat) -> char {
    if d == 0 { '0' }
    else if d == 1 { '1' }
    else if d == 2 { '2' }
    else if d == 3 { '3' }
    else if d == 4 { '4' }
    else if d == 5 { '5' }
    else if d == 6 { '6' }
    else if d == 7 { '7' }
    else if d == 8 { '8' }
    else { '9' }
}

/// The decimal notation of `n`, without leading zeros.
pub open spec fn decimal(n: nat) -> Seq<char>
    decreases n,
{
    if n < 10 {
        seq![digit_char(n)]
    } else {
        decimal(n / 10).push(digit_char(n % 10))
    }
}

/// A synchronous script: the body as an anonymous function, called at once
/// with no arguments.
pub open spec fn sync_script(body: Seq<char>) -> Seq<char> {
    "(function() { "@ + body + " })()"@
}

/// An asynchronous script: a guard that signals a timeout after
/// `timeout_ms`, installed before the body runs as a function whose one
/// parameter is the completion callback.
pub open spec fn async_script(body: Seq<char>, timeout_ms: nat) -> Seq<char> {
    "setTimeout(webdriverTimeout, "@ + decimal(timeout_ms) + "); (function(callback) { "@ + body
        + " })(window.webdriverCallback)"@
}

fn digit_str(d: u64) -> (r: &'static str)
    requires
        d < 10,
    ensures
        r@ == seq![digit_char(d as nat)],
{
    proof {
        reveal_strlit("0");
        reveal_strlit("1");
        reveal_strlit("2");
        reveal_strlit("3");
        reveal_strlit("4");
        reveal_strlit("5");
        reveal_strlit("6");
        reveal_strlit("7");
        reveal_strlit("8");
        reveal_strlit("9");
    }
    if d == 0 { "0" }
    else if d == 1 { "1" }
    else if d == 2 { "2" }
    else if d == 3 { "3" }
    else if d == 4 { "4" }
    else if d == 5 { "5" }
    else if d == 6 { "6" }
    else if d == 7 { "7" }
    else if d == 8 { "8" }
    else { "9" }
}

/// Appends the decimal notation of `n` to `s`.
pub fn push_decimal(s: &mut String, n: u64)
    ensures
        final(s)@ == old(s)@ + decimal(n as nat),
    decreases n,
{
    if n >= 10 {
        push_decimal(s, n / 10);
    }
    let d = digit_str(n % 10);
    s.append(d);
    assert(final(s)@ =~= old(s)@ + decimal(n as nat));
}

/// The source that runs `body` synchronously.
pub fn sync_script_source(body: &str) -> (r: String)
    ensures
        r@ == sync_script(body@),
{
    let mut s = String::from_str("(function() { ");
    s.append(body);
    s.append(" })()");
    assert(s@ =~= sync_script(body@));
    s
}

/// The source that runs `body` asynchronously under a guard of `timeout_ms`.
pub fn async_script_source(body: &str, timeout_ms: u64) -> (r: String)
    ensures
        r@ == async_script(body@, timeout_ms as nat),
{
    let mut s = String::from_str("setTimeout(webdriverTimeout, ");
    push_decimal(&mut s, timeout_ms);
    s.append("); (function(callback) { ");
    s.append(body);
    s.append(" })(window.webdriverCallback)");
    assert(s@ =~= async_script(body@, timeout_ms as nat));
    s
}

/// The guard of an asynchronous script carries the configured timeout in
/// decimal, at the same place whatever the body holds.
pub proof fn lemma_async_guard_timeout(body: Seq<char>, timeout_ms: nat)
    ensures
        async_script(body, timeout_ms).subrange(29, 29 + decimal(timeout_ms).len() as int)
            == decimal(timeout_ms),
{
    reveal_strlit("setTimeout(webdriverTimeout, ");
    assert("setTimeout(webdriverTimeout, "@.len() == 29);
    assert(async_script(body, timeout_ms).subrange(29, 29 + decimal(timeout_ms).len() as int)
        =~= decimal(timeout_ms));
}

} // verus!
