//! Launch-by-path outcome handling.  The platform's launcher reports a
//! numeric status code; a code above a fixed threshold means success,
//! anything else is surfaced to the caller as a descriptive error string
//! embedding the code.

use vstd::prelude::*;

verus! {

/// The launcher's status codes are a success exactly above this value.
pub const LAUNCH_SUCCESS_THRESHOLD: i32 = 32;

/// The decimal digits of `n`, most significant first, as ASCII bytes.
pub open spec fn dec_bytes(n: nat) -> Seq<u8>
    decreases n,
{
    if n < 10 {
        seq![(48 + n) as u8]
    } else {
        dec_bytes(n / 10) + seq![(48 + n % 10) as u8]
    }
}

/// The decimal rendering of an integer, as characters, `-`-signed.
pub open spec fn dec_chars(n: int) -> Seq<char> {
    if n < 0 {
        seq!['-'] + crate::encode::ascii_chars(dec_bytes((-n) as nat))
    } else {
        crate::encode::ascii_chars(dec_bytes(n as nat))
    }
}

proof fn lemma_dec_bytes_ascii(n: nat)
    ensures
        forall|i: int| 0 <= i < dec_bytes(n).len() ==> 48 <= #[trigger] dec_bytes(n)[i] < 58,
    decreases n,
{
    if n < 10 {
        assert(dec_bytes(n) =~= seq![(48 + n) as u8]);
    } else {
        lemma_dec_bytes_ascii(n / 10);
        assert forall|i: int| 0 <= i < dec_bytes(n).len() implies 48 <= #[trigger] dec_bytes(n)[i]
            < 58 by {
            if i < dec_bytes(n / 10).len() {
                assert(dec_bytes(n)[i] == dec_bytes(n / 10)[i]);
            } else {
                assert(dec_bytes(n)[i] == (48 + n % 10) as u8);
            }
        }
    }
}

/// The decimal digits of a machine integer, as ASCII bytes.
fn dec_bytes_ex(n: u64) -> (r: Vec<u8>)
    ensures
        r@ == dec_bytes(n as nat),
        forall|i: int| 0 <= i < r@.len() ==> r@[i] < 128,
{
    let mut rev: Vec<u8> = Vec::new();
    let mut m: u64 = n;
    loop
        invariant_except_break
            dec_bytes(n as nat) == dec_bytes(m as nat) + rev@.reverse(),
        ensures
            rev@.reverse() == dec_bytes(n as nat),
        decreases m,
    {
        let d: u8 = (m % 10) as u8;
        proof {
            let grown = rev@ + seq![(48 + d) as u8];
            assert(grown.reverse() =~= seq![(48 + d) as u8] + rev@.reverse());
            if m >= 10 {
                assert(dec_bytes(m as nat) == dec_bytes((m as nat) / 10) + seq![
                    (48 + (m as nat) % 10) as u8,
                ]);
                assert(dec_bytes((m as nat) / 10) + seq![(48 + d) as u8] + rev@.reverse()
                    =~= dec_bytes((m as nat) / 10) + grown.reverse());
            } else {
                assert(dec_bytes(m as nat) == seq![(48 + m as nat) as u8]);
                assert(seq![(48 + d) as u8] + rev@.reverse() =~= grown.reverse());
            }
        }
        rev.push(48 + d);
        let next: u64 = m / 10;
        if next == 0 {
            proof {
                assert(m < 10);
                assert(rev@.reverse() == dec_bytes(n as nat));
            }
            break ;
        }
        m = next;
    }
    let mut out: Vec<u8> = Vec::new();
    let mut k: usize = rev.len();
    while k > 0
        invariant
            k <= rev@.len(),
            out@ == rev@.reverse().take((rev@.len() - k) as int),
        decreases k,
    {
        k = k - 1;
        out.push(rev[k]);
        proof {
            assert(out@ =~= rev@.reverse().take((rev@.len() - k) as int));
        }
    }
    proof {
        assert(rev@.reverse().take(rev@.len() as int) =~= rev@.reverse());
        lemma_dec_bytes_ascii(n as nat);
    }
    out
}

/// The decimal rendering of a launch status code, sign included.
pub fn code_text(code: i32) -> (r: String)
    ensures
        r@ == dec_chars(code as int),
{
    let wide: i64 = code as i64;
    if wide < 0 {
        let mag: u64 = (-wide) as u64;
        let digits = dec_bytes_ex(mag);
        let tail = crate::encode::string_from_ascii(digits);
        let mut s = String::from_str("-");
        proof {
            reveal_strlit("-");
            assert("-"@ =~= seq!['-']);
        }
        s.append(tail.as_str());
        s
    } else {
        let digits = dec_bytes_ex(wide as u64);
        crate::encode::string_from_ascii(digits)
    }
}

/// The error text surfaced when a launch fails with `code`.
pub open spec fn launch_error_text(code: int) -> Seq<char> {
    "Failed to open software: ShellExecute failed with code "@ + dec_chars(code)
}

/// Maps the platform launcher's status code to the caller-facing
/// outcome: a code above the threshold is success; any other code is an
/// error string that embeds the code.
pub fn open_software(launch_code: i32) -> (r: Result<(), String>)
    ensures
        r is Ok <==> launch_code > LAUNCH_SUCCESS_THRESHOLD,
        r matches Err(msg) ==> msg@ == launch_error_text(launch_code as int),
{
    if launch_code > LAUNCH_SUCCESS_THRESHOLD {
        Ok(())
    } else {
        let mut s = String::from_str(
            "Failed to open software: ShellExecute failed with code ",
        );
        let tail = code_text(launch_code);
        s.append(tail.as_str());
        Err(s)
    }
}

} // verus!
