//! Query assembly: a request is a builder over optional typed parameters
//! and a lazily materialized canonical query string.

use vstd::prelude::*;
use vstd::string::*;

verus! {

/// A civil date-time, held as whole seconds since the Unix epoch.
/// Stands in for the calendar type a caller works with; the conversion
/// from a calendar representation happens outside the core.
#[derive(Clone, Copy, PartialEq, Eq, Structural, Debug)]
pub struct Timestamp {
    pub secs: u64,
}

/// The decimal digit character for `d` (`d < 10`).
pub open spec fn dec_digit(d: nat) -> char {
    if d == 0 {
        '0'
    } else if d == 1 {
        '1'
    } else if d == 2 {
        '2'
    } else if d == 3 {
        '3'
    } else if d == 4 {
        '4'
    } else if d == 5 {
        '5'
    } else if d == 6 {
        '6'
    } else if d == 7 {
        '7'
    } else if d == 8 {
        '8'
    } else {
        '9'
    }
}

/// The decimal rendering of `n`: no sign, no padding, most significant
/// digit first.
pub open spec fn dec_str(n: nat) -> Seq<char>
    decreases n,
{
    if n < 10 {
        seq![dec_digit(n)]
    } else {
        dec_str(n / 10).push(dec_digit(n % 10))
    }
}

/// The decimal rendering of a digit sequence held least significant
/// first, as `dec_str` lays it out: most significant digit first.
spec fn rev_digits(ds: Seq<u64>) -> Seq<char> {
    Seq::new(ds.len(), |i: int| dec_digit(ds[ds.len() - 1 - i] as nat))
}

fn dec_digit_str(d: u64) -> (r: &'static str)
    requires
        d < 10,
    ensures
        r@ == seq![dec_digit(d as nat)],
{
    if d == 0 {
        proof {
            reveal_strlit("0");
            assert("0"@ =~= seq![dec_digit(0)]);
        }
        "0"
    } else if d == 1 {
        proof {
            reveal_strlit("1");
            assert("1"@ =~= seq![dec_digit(1)]);
        }
        "1"
    } else if d == 2 {
        proof {
            reveal_strlit("2");
            assert("2"@ =~= seq![dec_digit(2)]);
        }
        "2"
    } else if d == 3 {
        proof {
            reveal_strlit("3");
            assert("3"@ =~= seq![dec_digit(3)]);
        }
        "3"
    } else if d == 4 {
        proof {
            reveal_strlit("4");
            assert("4"@ =~= seq![dec_digit(4)]);
        }
        "4"
    } else if d == 5 {
        proof {
            reveal_strlit("5");
            assert("5"@ =~= seq![dec_digit(5)]);
        }
        "5"
    } else if d == 6 {
        proof {
            reveal_strlit("6");
            assert("6"@ =~= seq![dec_digit(6)]);
        }
        "6"
    } else if d == 7 {
        proof {
            reveal_strlit("7");
            assert("7"@ =~= seq![dec_digit(7)]);
        }
        "7"
    } else if d == 8 {
        proof {
            reveal_strlit("8");
            assert("8"@ =~= seq![dec_digit(8)]);
        }
        "8"
    } else {
        proof {
            reveal_strlit("9");
            assert("9"@ =~= seq![dec_digit(9)]);
        }
        "9"
    }
}

fn u64_to_dec(n: u64) -> (r: String)
    ensures
        r@ == dec_str(n as nat),
{
    let mut digits: Vec<u64> = Vec::new();
    digits.push(n % 10);
    let mut m: u64 = n / 10;
    proof {
        if m > 0 {
            assert(dec_str(n as nat) =~= dec_str(m as nat) + rev_digits(digits@));
        } else {
            assert(dec_str(n as nat) =~= rev_digits(digits@));
        }
    }
    while m > 0
        invariant
            digits@.len() >= 1,
            forall|k: int| 0 <= k < digits@.len() ==> digits@[k] < 10,
            dec_str(n as nat) == if m > 0 {
                dec_str(m as nat) + rev_digits(digits@)
            } else {
                rev_digits(digits@)
            },
        decreases m,
    {
        let ghost prev = digits@;
        let ghost pm = m as nat;
        digits.push(m % 10);
        m = m / 10;
        proof {
            assert(rev_digits(digits@) =~= seq![dec_digit(pm % 10)] + rev_digits(prev));
            if m > 0 {
                assert(dec_str(pm) == dec_str(pm / 10).push(dec_digit(pm % 10)));
                assert(dec_str(pm) + rev_digits(prev) =~= dec_str(m as nat) + rev_digits(
                    digits@,
                ));
            } else {
                assert(dec_str(pm) =~= seq![dec_digit(pm % 10)]);
                assert(dec_str(pm) + rev_digits(prev) =~= rev_digits(digits@));
            }
        }
    }
    let mut s = String::new();
    let mut i: usize = digits.len();
    while i > 0
        invariant
            i <= digits@.len(),
            forall|k: int| 0 <= k < digits@.len() ==> digits@[k] < 10,
            s@ == rev_digits(digits@).subrange(0, digits@.len() - i),
        decreases i,
    {
        let d: u64 = digits[i - 1];
        s.append(dec_digit_str(d));
        i = i - 1;
        proof {
            assert(s@ =~= rev_digits(digits@).subrange(0, digits@.len() - i));
        }
    }
    proof {
        assert(rev_digits(digits@).subrange(0, digits@.len() as int) =~= rev_digits(digits@));
    }
    s
}

/// A mutable builder of one outbound request: optional typed parameters
/// plus the cached query string that `build` materializes from them.
///
/// The arrival and departure times are mutually exclusive by the service's
/// contract; resolving the conflict is the caller's responsibility. If both
/// are nevertheless set, assembly is deterministic: the arrival time takes
/// precedence and the departure time is left out of the query (see
/// `canonical_query`).
pub struct Request {
    pub arrival_time: Option<Timestamp>,
    pub departure_time: Option<Timestamp>,
    pub query: Option<String>,
}

/// The canonical query string for a request's parameters. When both
/// mutually-exclusive time parameters are set, the arrival time wins;
/// with no parameter set the query is empty (still distinct from a query
/// that was never built).
pub open spec fn canonical_query(r: Request) -> Seq<char> {
    match r.arrival_time {
        Some(t) => "arrival_time="@ + dec_str(t.secs as nat),
        None => match r.departure_time {
            Some(t) => "departure_time="@ + dec_str(t.secs as nat),
            None => Seq::<char>::empty(),
        },
    }
}

/// Assembly is deterministic, and so idempotent: the canonical query is a
/// function of the parameters alone, so two requests with the same
/// parameters — or one request built twice without mutation in between —
/// get the same query string.
pub proof fn lemma_assembly_deterministic(a: Request, b: Request)
    requires
        a.arrival_time == b.arrival_time,
        a.departure_time == b.departure_time,
    ensures
        canonical_query(a) == canonical_query(b),
{
}

/// The documented resolution of the mutually-exclusive pair: whenever the
/// arrival time is set, the query is its rendering alone — whatever the
/// departure time holds, it does not appear.
pub proof fn lemma_arrival_time_precedence(r: Request, t: Timestamp)
    requires
        r.arrival_time == Some(t),
    ensures
        canonical_query(r) == "arrival_time="@ + dec_str(t.secs as nat),
{
}

impl Request {
    /// A fresh request: no parameters set, query not built.
    pub fn new() -> (r: Request)
        ensures
            r.arrival_time is None,
            r.departure_time is None,
            r.query is None,
    {
        Request { arrival_time: None, departure_time: None, query: None }
    }

    /// Specifies the desired arrival time. Use either this or
    /// `with_departure_time`, not both together. Invalidates any query
    /// string built from the previous parameters.
    pub fn with_arrival_time(&mut self, arrival_time: Timestamp)
        ensures
            final(self).arrival_time == Some(arrival_time),
            final(self).departure_time == old(self).departure_time,
            final(self).query is None,
    {
        self.arrival_time = Some(arrival_time);
        self.query = None;
    }

    /// Specifies the desired departure time. Use either this or
    /// `with_arrival_time`, not both together. Invalidates any query
    /// string built from the previous parameters.
    pub fn with_departure_time(&mut self, departure_time: Timestamp)
        ensures
            final(self).departure_time == Some(departure_time),
            final(self).arrival_time == old(self).arrival_time,
            final(self).query is None,
    {
        self.departure_time = Some(departure_time);
        self.query = None;
    }

    /// Materializes the canonical query string from the parameters set so
    /// far. Idempotent: the result is a function of the parameters alone,
    /// so building twice without mutation caches the same string.
    pub fn build(&mut self)
        ensures
            final(self).arrival_time == old(self).arrival_time,
            final(self).departure_time == old(self).departure_time,
            final(self).query matches Some(q) && q@ == canonical_query(*old(self)),
    {
        let q: String = match &self.arrival_time {
            Some(t) => {
                let mut s = String::from_str("arrival_time=");
                let digits = u64_to_dec(t.secs);
                s.append(digits.as_str());
                s
            },
            None => match &self.departure_time {
                Some(t) => {
                    let mut s = String::from_str("departure_time=");
                    let digits = u64_to_dec(t.secs);
                    s.append(digits.as_str());
                    s
                },
                None => {
                    let s = String::new();
                    assert(s@ =~= Seq::<char>::empty());
                    s
                },
            },
        };
        self.query = Some(q);
    }
}

} // verus!
