//! Versioned byte layout of the persisted platform-configuration record,
//! and the schema upgrade from the legacy layout to the current one.
//!
//! Legacy record (108 bytes): discriminator 0..8, authority 8..40, oracle
//! 40..72, fee rate 72..74, paused 74, DOOM fees 75..83, LIFE fees 83..91,
//! event counter 91..99, bet counter 99..107, bump 107.
//!
//! Current record (172 bytes): the same through the oracle, then the DOOM
//! mint 72..104 and LIFE mint 104..136, and the remaining fields shifted
//! behind them unchanged.

use vstd::prelude::*;

use crate::errors::PredictionError;

verus! {

/// Size of the legacy configuration record, in bytes.
pub const LEGACY_CONFIG_LEN: usize = 108;

/// Size of the current configuration record, in bytes.
pub const CONFIG_LEN: usize = 172;

/// Byte-wise comparison of `a[a_start..a_start+len]` with
/// `b[b_start..b_start+len]`.
fn range_eq(a: &Vec<u8>, a_start: usize, b: &Vec<u8>, b_start: usize, len: usize) -> (r: bool)
    requires
        a_start + len <= a@.len(),
        b_start + len <= b@.len(),
    ensures
        r == (a@.subrange(a_start as int, a_start as int + len as int) == b@.subrange(
            b_start as int,
            b_start as int + len as int,
        )),
{
    let a_len: usize = a.len();
    let b_len: usize = b.len();
    let ghost sa = a@.subrange(a_start as int, a_start as int + len as int);
    let ghost sb = b@.subrange(b_start as int, b_start as int + len as int);
    let mut i: usize = 0;
    while i < len
        invariant
            i <= len,
            a_start + len <= a@.len(),
            b_start + len <= b@.len(),
            a@.len() == a_len,
            b@.len() == b_len,
            sa == a@.subrange(a_start as int, a_start as int + len as int),
            sb == b@.subrange(b_start as int, b_start as int + len as int),
            forall|j: int| 0 <= j < i ==> sa[j] == sb[j],
        decreases len - i,
    {
        if a[a_start + i] != b[b_start + i] {
            assert(sa[i as int] != sb[i as int]);
            return false;
        }
        i += 1;
    }
    proof {
        assert(sa =~= sb);
    }
    true
}

/// Appends `src[start..end]` to `dst`.
fn push_range(dst: &mut Vec<u8>, src: &Vec<u8>, start: usize, end: usize)
    requires
        start <= end,
        end <= src@.len(),
        old(dst)@.len() + (end - start) <= usize::MAX,
    ensures
        final(dst)@ == old(dst)@ + src@.subrange(start as int, end as int),
{
    let mut i: usize = start;
    proof {
        assert(dst@ =~= old(dst)@ + src@.subrange(start as int, start as int));
    }
    while i < end
        invariant
            start <= i <= end,
            end <= src@.len(),
            old(dst)@.len() + (end - start) <= usize::MAX,
            dst@ == old(dst)@ + src@.subrange(start as int, i as int),
        decreases end - i,
    {
        dst.push(src[i]);
        proof {
            assert(dst@ =~= old(dst)@ + src@.subrange(start as int, i as int + 1));
        }
        i += 1;
    }
}

/// Upgrades a legacy configuration record to the current layout: the
/// claimed admin must match the stored authority; an already-migrated
/// record passes through unchanged; a legacy record is rebuilt with the two
/// mint keys inserted and every other field carried over byte for byte.
/// The substrate performs the surrounding account resize and rent top-up.
pub fn migrate_platform(data: &Vec<u8>, authority: &Vec<u8>, doom_mint: &Vec<u8>, life_mint: &Vec<u8>) -> (r: Result<Vec<u8>, PredictionError>)
    requires
        data@.len() == LEGACY_CONFIG_LEN || data@.len() >= CONFIG_LEN,
        authority@.len() == 32,
        doom_mint@.len() == 32,
        life_mint@.len() == 32,
    ensures
        match r {
            Ok(out) => {
                &&& data@.subrange(8, 40) == authority@
                &&& data@.len() >= CONFIG_LEN ==> out@ == data@
                &&& data@.len() == LEGACY_CONFIG_LEN ==> {
                    &&& out@.len() == CONFIG_LEN
                    &&& out@.subrange(0, 72) == data@.subrange(0, 72)
                    &&& out@.subrange(72, 104) == doom_mint@
                    &&& out@.subrange(104, 136) == life_mint@
                    &&& out@.subrange(136, 172) == data@.subrange(72, 108)
                }
            },
            Err(e) => {
                &&& e == PredictionError::Unauthorized
                &&& data@.subrange(8, 40) != authority@
            },
        },
{
    if !range_eq(data, 8, authority, 0, 32) {
        proof {
            assert(authority@.subrange(0, 32) =~= authority@);
        }
        return Err(PredictionError::Unauthorized);
    }
    proof {
        assert(authority@.subrange(0, 32) =~= authority@);
    }

    if data.len() >= CONFIG_LEN {
        let mut out: Vec<u8> = Vec::new();
        push_range(&mut out, data, 0, data.len());
        proof {
            assert(out@ =~= data@);
        }
        return Ok(out);
    }

    let mut out: Vec<u8> = Vec::new();
    push_range(&mut out, data, 0, 72);
    push_range(&mut out, doom_mint, 0, 32);
    push_range(&mut out, life_mint, 0, 32);
    push_range(&mut out, data, 72, 108);

    proof {
        assert(doom_mint@.subrange(0, 32) =~= doom_mint@);
        assert(life_mint@.subrange(0, 32) =~= life_mint@);
        assert(out@.subrange(0, 72) =~= data@.subrange(0, 72));
        assert(out@.subrange(72, 104) =~= doom_mint@);
        assert(out@.subrange(104, 136) =~= life_mint@);
        assert(out@.subrange(136, 172) =~= data@.subrange(72, 108));
    }
    Ok(out)
}

} // verus!
