//! Preparing database settings for logging: the connection string is
//! printed at startup, with the password redacted first so that it never
//! reaches a log.
use crate::search::matches_at;
use vstd::prelude::*;
use vstd::string::StringExecFns;

verus! {

/// The text that stands in for the password wherever it is redacted.
pub const PASSWORD_REDACTION: &'static str = "<password_redacted>";

/// `s` with every occurrence of `secret` replaced by `repl`: scanning left
/// to right, replacing non-overlapping occurrences, never rescanning the
/// replacement. An empty `secret` replaces nothing.
pub open spec fn spec_redact(s: Seq<char>, secret: Seq<char>, repl: Seq<char>) -> Seq<char>
    decreases s.len(),
{
    if secret.len() == 0 {
        s
    } else if s.len() < secret.len() {
        s
    } else if s.subrange(0, secret.len() as int) == secret {
        repl + spec_redact(s.subrange(secret.len() as int, s.len() as int), secret, repl)
    } else {
        seq![s[0]] + spec_redact(s.subrange(1, s.len() as int), secret, repl)
    }
}

/// Returns the connection string with every occurrence of the password
/// replaced by [`PASSWORD_REDACTION`], as [`spec_redact`] says, so the
/// string can be logged.
pub fn redact_password(connect_string: &str, password: &str) -> (r: String)
    ensures
        r@ == spec_redact(connect_string@, password@, PASSWORD_REDACTION@),
{
    let n = connect_string.unicode_len();
    let m = password.unicode_len();
    if m == 0 {
        return connect_string.to_owned();
    }
    let mut out = String::new();
    let mut i: usize = 0;
    proof {
        assert(connect_string@.subrange(0, n as int) =~= connect_string@);
        assert(Seq::<char>::empty() + spec_redact(
            connect_string@.subrange(0, n as int),
            password@,
            PASSWORD_REDACTION@,
        ) =~= spec_redact(connect_string@, password@, PASSWORD_REDACTION@));
    }
    while i < n
        invariant
            0 <= i <= n,
            n == connect_string@.len(),
            m == password@.len(),
            m > 0,
            spec_redact(connect_string@, password@, PASSWORD_REDACTION@) == out@ + spec_redact(
                connect_string@.subrange(i as int, n as int),
                password@,
                PASSWORD_REDACTION@,
            ),
        decreases n - i,
    {
        let ghost tail = connect_string@.subrange(i as int, n as int);
        let ghost prev = out@;
        if m <= n - i && matches_at(connect_string, password, i) {
            out.append(PASSWORD_REDACTION);
            proof {
                assert(tail.subrange(0, m as int) =~= connect_string@.subrange(
                    i as int,
                    i as int + m as int,
                ));
                assert(tail.subrange(m as int, tail.len() as int) =~= connect_string@.subrange(
                    i as int + m as int,
                    n as int,
                ));
                assert(spec_redact(tail, password@, PASSWORD_REDACTION@) == PASSWORD_REDACTION@
                    + spec_redact(
                    connect_string@.subrange(i as int + m as int, n as int),
                    password@,
                    PASSWORD_REDACTION@,
                ));
                assert(prev + spec_redact(tail, password@, PASSWORD_REDACTION@) =~= out@
                    + spec_redact(
                    connect_string@.subrange(i as int + m as int, n as int),
                    password@,
                    PASSWORD_REDACTION@,
                ));
            }
            i = i + m;
        } else {
            out.append(connect_string.substring_char(i, i + 1));
            proof {
                let shorter = connect_string@.subrange(i as int + 1, n as int);
                assert(tail.subrange(1, tail.len() as int) =~= shorter);
                assert(tail[0] == connect_string@[i as int]);
                assert(connect_string@.subrange(i as int, i as int + 1) =~= seq![tail[0]]);
                if m <= n - i {
                    assert(tail.subrange(0, m as int) =~= connect_string@.subrange(
                        i as int,
                        i as int + m as int,
                    ));
                    assert(spec_redact(tail, password@, PASSWORD_REDACTION@) == seq![tail[0]]
                        + spec_redact(shorter, password@, PASSWORD_REDACTION@));
                } else {
                    assert(tail.len() < m && shorter.len() < m);
                    assert(spec_redact(tail, password@, PASSWORD_REDACTION@) == tail);
                    assert(spec_redact(shorter, password@, PASSWORD_REDACTION@) == shorter);
                    assert(tail =~= seq![tail[0]] + shorter);
                }
                assert(prev + spec_redact(tail, password@, PASSWORD_REDACTION@) =~= out@
                    + spec_redact(shorter, password@, PASSWORD_REDACTION@));
            }
            i = i + 1;
        }
    }
    proof {
        assert(connect_string@.subrange(n as int, n as int).len() == 0);
        assert(out@ + spec_redact(
            connect_string@.subrange(n as int, n as int),
            password@,
            PASSWORD_REDACTION@,
        ) =~= out@);
    }
    out
}

} // verus!
