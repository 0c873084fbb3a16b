//! The persisted layout of a guard set.
//!
//! The image is the activation mask as a little-endian fixed-width unsigned
//! integer, followed by the serialized configuration of each enabled guard,
//! concatenated strictly in ascending bit order, each region exactly the
//! kind's fixed size — no padding, no length prefixes. Decoding rejects a
//! mask with a bit outside the known registry and an image whose length does
//! not match what its mask demands, and decode inverts encode exactly.
use vstd::prelude::*;

use vstd::bytes::{
    lemma_auto_spec_u64_to_from_le_bytes, spec_u64_from_le_bytes, spec_u64_to_le_bytes,
    u64_from_le_bytes, u64_to_le_bytes,
};
use vstd::slice::{slice_subrange, slice_to_vec};

use crate::errors::DecodeError;
use crate::guard_set::{GuardSet, GuardSetV};
use crate::lamports::{Lamports, LamportsV};
use crate::registry::{GuardType, KNOWN_GUARDS_MASK};
use crate::resource::Pubkey;
use crate::sol_payment::{SolPayment, SolPaymentV};
use crate::start_date::{StartDate, StartDateV};

verus! {

/// A date as its little-endian two's-complement image.
pub open spec fn spec_i64_to_le_bytes(x: i64) -> Seq<u8> {
    spec_u64_to_le_bytes(x as u64)
}

fn i64_to_le_bytes(x: i64) -> (r: Vec<u8>)
    ensures
        r@ == spec_i64_to_le_bytes(x),
        r@.len() == 8,
{
    u64_to_le_bytes(x as u64)
}

/// The byte image of a guard set under the persisted layout.
pub open spec fn spec_encode(v: GuardSetV) -> Seq<u8> {
    spec_u64_to_le_bytes(v.active_mask) + (if v.lamports is Some {
        spec_u64_to_le_bytes(v.lamports->0.amount) + v.lamports->0.destination
    } else {
        Seq::<u8>::empty()
    }) + (if v.sol_payment is Some {
        spec_u64_to_le_bytes(v.sol_payment->0.lamports) + v.sol_payment->0.destination
    } else {
        Seq::<u8>::empty()
    }) + (if v.start_date is Some {
        spec_i64_to_le_bytes(v.start_date->0.date)
    } else {
        Seq::<u8>::empty()
    })
}

/// The byte length a mask demands of the guard regions after it.
pub open spec fn spec_body_len(mask: u64) -> int {
    (if mask & GuardType::Lamports.spec_mask() != 0 {
        40int
    } else {
        0int
    }) + (if mask & GuardType::SolPayment.spec_mask() != 0 {
        40int
    } else {
        0int
    }) + (if mask & GuardType::StartDate.spec_mask() != 0 {
        8int
    } else {
        0int
    })
}

/// What a byte image denotes: the guard set it encodes, or the reason it is
/// rejected.
pub open spec fn spec_decode(b: Seq<u8>) -> Result<GuardSetV, DecodeError> {
    if b.len() < 8 {
        Err(DecodeError::LengthMismatch)
    } else {
        let mask = spec_u64_from_le_bytes(b.subrange(0, 8));
        if mask & KNOWN_GUARDS_MASK != mask {
            Err(DecodeError::UnknownGuardBits)
        } else if b.len() != 8 + spec_body_len(mask) {
            Err(DecodeError::LengthMismatch)
        } else {
            let l_off = 8int;
            let s_off = l_off + (if mask & GuardType::Lamports.spec_mask() != 0 {
                40int
            } else {
                0int
            });
            let d_off = s_off + (if mask & GuardType::SolPayment.spec_mask() != 0 {
                40int
            } else {
                0int
            });
            Ok(
                GuardSetV {
                    active_mask: mask,
                    lamports: if mask & GuardType::Lamports.spec_mask() != 0 {
                        Some(
                            LamportsV {
                                amount: spec_u64_from_le_bytes(b.subrange(l_off, l_off + 8)),
                                destination: b.subrange(l_off + 8, l_off + 40),
                            },
                        )
                    } else {
                        None
                    },
                    sol_payment: if mask & GuardType::SolPayment.spec_mask() != 0 {
                        Some(
                            SolPaymentV {
                                lamports: spec_u64_from_le_bytes(b.subrange(s_off, s_off + 8)),
                                destination: b.subrange(s_off + 8, s_off + 40),
                            },
                        )
                    } else {
                        None
                    },
                    start_date: if mask & GuardType::StartDate.spec_mask() != 0 {
                        Some(
                            StartDateV {
                                date: spec_u64_from_le_bytes(b.subrange(d_off, d_off + 8)) as i64,
                            },
                        )
                    } else {
                        None
                    },
                },
            )
        }
    }
}

fn push_bytes(out: &mut Vec<u8>, src: &Vec<u8>)
    ensures
        final(out)@ == old(out)@ + src@,
{
    let n = src.len();
    let mut i: usize = 0;
    while i < n
        invariant
            i <= n,
            n == src@.len(),
            out@ == old(out)@ + src@.subrange(0, i as int),
        decreases n - i,
    {
        out.push(src[i]);
        proof {
            assert(out@ =~= old(out)@ + src@.subrange(0, i + 1));
        }
        i += 1;
    }
    proof {
        assert(out@ =~= old(out)@ + src@);
    }
}

/// Writes a guard set out under the persisted layout.
pub fn encode(set: &GuardSet) -> (r: Vec<u8>)
    requires
        set.wf(),
    ensures
        r@ == spec_encode(set@),
{
    let mut out = u64_to_le_bytes(set.active_mask);
    if let Some(g) = &set.lamports {
        let mut amount_bytes = u64_to_le_bytes(g.amount);
        out.append(&mut amount_bytes);
        push_bytes(&mut out, &g.destination.bytes);
    }
    if let Some(g) = &set.sol_payment {
        let mut amount_bytes = u64_to_le_bytes(g.lamports);
        out.append(&mut amount_bytes);
        push_bytes(&mut out, &g.destination.bytes);
    }
    if let Some(g) = &set.start_date {
        let mut date_bytes = i64_to_le_bytes(g.date);
        out.append(&mut date_bytes);
    }
    proof {
        assert(out@ =~= spec_encode(set@));
    }
    out
}

/// Reads a guard set back from a persisted image, rejecting a mask with a
/// bit outside the known registry and an image of the wrong length.
pub fn decode(bytes: &[u8]) -> (r: Result<GuardSet, DecodeError>)
    ensures
        match r {
            Ok(s) => s.wf() && spec_decode(bytes@) == Ok::<GuardSetV, DecodeError>(s@),
            Err(e) => spec_decode(bytes@) == Err::<GuardSetV, DecodeError>(e),
        },
{
    if bytes.len() < 8 {
        return Err(DecodeError::LengthMismatch);
    }
    let mask = u64_from_le_bytes(slice_subrange(bytes, 0, 8));
    if mask & KNOWN_GUARDS_MASK != mask {
        return Err(DecodeError::UnknownGuardBits);
    }
    let has_lamports = mask & GuardType::Lamports.as_mask() != 0;
    let has_sol_payment = mask & GuardType::SolPayment.as_mask() != 0;
    let has_start_date = mask & GuardType::StartDate.as_mask() != 0;
    let expected: usize = 8 + (if has_lamports {
        40
    } else {
        0
    }) + (if has_sol_payment {
        40
    } else {
        0
    }) + (if has_start_date {
        8
    } else {
        0
    });
    if bytes.len() != expected {
        return Err(DecodeError::LengthMismatch);
    }

    let mut off: usize = 8;
    let mut lamports: Option<Lamports> = None;
    if has_lamports {
        let amount = u64_from_le_bytes(slice_subrange(bytes, off, off + 8));
        let destination = slice_to_vec(slice_subrange(bytes, off + 8, off + 40));
        lamports = Some(Lamports { amount, destination: Pubkey { bytes: destination } });
        off = off + 40;
    }
    let mut sol_payment: Option<SolPayment> = None;
    if has_sol_payment {
        let amount = u64_from_le_bytes(slice_subrange(bytes, off, off + 8));
        let destination = slice_to_vec(slice_subrange(bytes, off + 8, off + 40));
        sol_payment = Some(SolPayment { lamports: amount, destination: Pubkey { bytes: destination } });
        off = off + 40;
    }
    let mut start_date: Option<StartDate> = None;
    if has_start_date {
        let date = u64_from_le_bytes(slice_subrange(bytes, off, off + 8));
        start_date = Some(StartDate { date: date as i64 });
    }

    let set = GuardSet { active_mask: mask, lamports, sol_payment, start_date };
    proof {
        let sv = spec_decode(bytes@)->Ok_0;
        assert(sv =~= set@);
    }
    Ok(set)
}

/// Round trip: decoding what encode wrote yields the very same guard set —
/// the persisted layout loses nothing.
pub proof fn lemma_decode_encode(v: GuardSetV)
    requires
        v.wf(),
    ensures
        spec_decode(spec_encode(v)) == Ok::<GuardSetV, DecodeError>(v),
{
    lemma_auto_spec_u64_to_from_le_bytes();
    let e = spec_encode(v);
    assert(e.subrange(0, 8) =~= spec_u64_to_le_bytes(v.active_mask));
    let mask = v.active_mask;
    let l_off = 8int;
    let s_off = l_off + (if mask & GuardType::Lamports.spec_mask() != 0 {
        40int
    } else {
        0int
    });
    let d_off = s_off + (if mask & GuardType::SolPayment.spec_mask() != 0 {
        40int
    } else {
        0int
    });
    if v.lamports is Some {
        assert(e.subrange(l_off, l_off + 8) =~= spec_u64_to_le_bytes(v.lamports->0.amount));
        assert(e.subrange(l_off + 8, l_off + 40) =~= v.lamports->0.destination);
    }
    if v.sol_payment is Some {
        assert(e.subrange(s_off, s_off + 8) =~= spec_u64_to_le_bytes(v.sol_payment->0.lamports));
        assert(e.subrange(s_off + 8, s_off + 40) =~= v.sol_payment->0.destination);
    }
    if v.start_date is Some {
        let d = v.start_date->0.date;
        assert(e.subrange(d_off, d_off + 8) =~= spec_u64_to_le_bytes(d as u64));
        assert((d as u64) as i64 == d) by (bit_vector);
    }
    assert(spec_decode(e)->Ok_0 =~= v);
}

/// An accepted image admits exactly one reading: re-encoding what decode
/// produced reproduces the image byte for byte.
pub proof fn lemma_encode_decode(b: Seq<u8>)
    requires
        spec_decode(b) is Ok,
    ensures
        spec_encode(spec_decode(b)->Ok_0) == b,
{
    lemma_auto_spec_u64_to_from_le_bytes();
    let v = spec_decode(b)->Ok_0;
    let mask = spec_u64_from_le_bytes(b.subrange(0, 8));
    let l_off = 8int;
    let s_off = l_off + (if mask & GuardType::Lamports.spec_mask() != 0 {
        40int
    } else {
        0int
    });
    let d_off = s_off + (if mask & GuardType::SolPayment.spec_mask() != 0 {
        40int
    } else {
        0int
    });
    let end = d_off + (if mask & GuardType::StartDate.spec_mask() != 0 {
        8int
    } else {
        0int
    });
    assert(b.len() == end);
    assert(spec_u64_to_le_bytes(v.active_mask) == b.subrange(0, 8));
    let p_lamports = if v.lamports is Some {
        spec_u64_to_le_bytes(v.lamports->0.amount) + v.lamports->0.destination
    } else {
        Seq::<u8>::empty()
    };
    let p_sol = if v.sol_payment is Some {
        spec_u64_to_le_bytes(v.sol_payment->0.lamports) + v.sol_payment->0.destination
    } else {
        Seq::<u8>::empty()
    };
    let p_date = if v.start_date is Some {
        spec_i64_to_le_bytes(v.start_date->0.date)
    } else {
        Seq::<u8>::empty()
    };
    if v.lamports is Some {
        assert(spec_u64_to_le_bytes(v.lamports->0.amount) == b.subrange(l_off, l_off + 8));
        assert(p_lamports =~= b.subrange(l_off, s_off));
    } else {
        assert(p_lamports =~= b.subrange(l_off, s_off));
    }
    if v.sol_payment is Some {
        assert(spec_u64_to_le_bytes(v.sol_payment->0.lamports) == b.subrange(s_off, s_off + 8));
        assert(p_sol =~= b.subrange(s_off, d_off));
    } else {
        assert(p_sol =~= b.subrange(s_off, d_off));
    }
    if v.start_date is Some {
        let x = spec_u64_from_le_bytes(b.subrange(d_off, d_off + 8));
        assert(((x as i64) as u64) == x) by (bit_vector);
        assert(p_date =~= b.subrange(d_off, end));
    } else {
        assert(p_date =~= b.subrange(d_off, end));
    }
    assert(spec_encode(v) =~= b);
}

} // verus!
