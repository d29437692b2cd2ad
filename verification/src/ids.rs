//! Identifier derivations.
//!
//! Identifiers travel on the wire as ASCII bytes, so this module works on
//! byte strings throughout. The enclave identifier has the shape
//! `i-(...)-enc<enc_id>`; the logging identifier keeps only the text after
//! the last `-enc` separator, prefixed with `enc-`.

use vstd::prelude::*;

verus! {

/// The separator `-enc` as bytes.
pub open spec fn sep_bytes() -> Seq<u8> {
    seq![45u8, 101u8, 110u8, 99u8]
}

/// The prefix `enc-` of every derived logging identifier, as bytes.
pub open spec fn logger_prefix_bytes() -> Seq<u8> {
    seq![101u8, 110u8, 99u8, 45u8]
}

/// The text after the last `-enc` separator of `id`, scanning from the right;
/// the whole of `id` when no separator occurs in it.
pub open spec fn logger_suffix(id: Seq<u8>) -> Seq<u8>
    decreases id.len(),
{
    if id.len() < 4 {
        id
    } else if id.subrange(id.len() - 4, id.len() as int) == sep_bytes() {
        Seq::empty()
    } else {
        logger_suffix(id.drop_last()).push(id.last())
    }
}

/// The logging identifier derived from an enclave identifier.
pub open spec fn logger_id_spec(id: Seq<u8>) -> Seq<u8> {
    logger_prefix_bytes() + logger_suffix(id)
}

/// Derive the logging identifier from the full enclave identifier: `enc-`
/// followed by the text after the identifier's last `-enc` separator (or by
/// the whole identifier when it has no such separator).
pub fn get_logger_id(enclave_id: &Vec<u8>) -> (r: Vec<u8>)
    ensures
        r@ == logger_id_spec(enclave_id@),
{
    let ghost id = enclave_id@;
    proof {
        assert(id.subrange(0, id.len() as int) =~= id);
        assert(logger_suffix(id) + id.subrange(id.len() as int, id.len() as int) =~= logger_suffix(
            id,
        ));
    }
    // Find where the suffix after the last separator starts.
    let mut k: usize = enclave_id.len();
    let mut start: usize = 0;
    loop
        invariant
            id == enclave_id@,
            k <= id.len(),
            logger_suffix(id) == logger_suffix(id.subrange(0, k as int)) + id.subrange(
                k as int,
                id.len() as int,
            ),
        ensures
            start <= id.len(),
            logger_suffix(id) == id.subrange(start as int, id.len() as int),
        decreases k,
    {
        if k < 4 {
            proof {
                assert(id.subrange(0, k as int).len() < 4);
                assert(logger_suffix(id.subrange(0, k as int)) == id.subrange(0, k as int));
                assert(id.subrange(0, k as int) + id.subrange(k as int, id.len() as int)
                    =~= id.subrange(0, id.len() as int));
                assert(id.subrange(0, id.len() as int) =~= id);
            }
            start = 0;
            break ;
        }
        let ghost prefix = id.subrange(0, k as int);
        if enclave_id[k - 4] == 45 && enclave_id[k - 3] == 101 && enclave_id[k - 2] == 110
            && enclave_id[k - 1] == 99 {
            proof {
                assert(prefix.subrange(prefix.len() - 4, prefix.len() as int) =~= sep_bytes());
                assert(logger_suffix(prefix) == Seq::<u8>::empty());
                assert(Seq::<u8>::empty() + id.subrange(k as int, id.len() as int) =~= id.subrange(
                    k as int,
                    id.len() as int,
                ));
            }
            start = k;
            break ;
        }
        proof {
            let s4 = prefix.subrange(prefix.len() - 4, prefix.len() as int);
            assert(s4[0] == id[k - 4] && s4[1] == id[k - 3] && s4[2] == id[k - 2] && s4[3] == id[k
                - 1]);
            assert(s4 != sep_bytes());
            assert(logger_suffix(prefix) == logger_suffix(prefix.drop_last()).push(prefix.last()));
            assert(prefix.drop_last() =~= id.subrange(0, k - 1 as int));
            assert(prefix.last() == id[k - 1]);
            assert(logger_suffix(id.subrange(0, k - 1 as int)).push(id[k - 1]) + id.subrange(
                k as int,
                id.len() as int,
            ) =~= logger_suffix(id.subrange(0, k - 1 as int)) + id.subrange(
                k - 1 as int,
                id.len() as int,
            ));
        }
        k = k - 1;
    }
    // Assemble `enc-` followed by the suffix.
    let mut r: Vec<u8> = Vec::new();
    r.push(101);
    r.push(110);
    r.push(99);
    r.push(45);
    proof {
        assert(r@ =~= logger_prefix_bytes());
    }
    let ghost prefix_done = r@;
    let mut i: usize = start;
    while i < enclave_id.len()
        invariant
            id == enclave_id@,
            start <= i <= id.len(),
            r@ == prefix_done + id.subrange(start as int, i as int),
        decreases id.len() - i,
    {
        r.push(enclave_id[i]);
        proof {
            assert(id.subrange(start as int, i + 1 as int) =~= id.subrange(
                start as int,
                i as int,
            ).push(id[i as int]));
        }
        i = i + 1;
    }
    r
}

/// The placeholder logging identifier used before any enclave is launched:
/// `enc-xxxxxxxxxxxx`.
pub open spec fn default_logger_id_spec() -> Seq<u8> {
    logger_prefix_bytes() + seq![
        120u8, 120u8, 120u8, 120u8, 120u8, 120u8, 120u8, 120u8, 120u8, 120u8, 120u8, 120u8,
    ]
}

/// The logging identifier the supervisor starts under, before `Run` assigns
/// the real enclave identifier.
pub fn default_logger_id() -> (r: Vec<u8>)
    ensures
        r@ == default_logger_id_spec(),
{
    let mut r: Vec<u8> = Vec::new();
    r.push(101);
    r.push(110);
    r.push(99);
    r.push(45);
    let mut i: usize = 0;
    while i < 12
        invariant
            i <= 12,
            r@.len() == 4 + i,
            r@.subrange(0, 4) == logger_prefix_bytes(),
            forall|j: int| 4 <= j < r@.len() ==> r@[j] == 120u8,
        decreases 12 - i,
    {
        r.push(120);
        i = i + 1;
    }
    proof {
        assert(r@ =~= default_logger_id_spec());
    }
    r
}

} // verus!
