//! The discovery datagram: a DNS-SD style query for one service name.
//!
//! Layout: a twelve-byte header (transaction id, flags, question count and
//! three zeroed record counts), the service name as length-prefixed labels
//! closed by a zero byte, then the query type (PTR) and class (IN).

use vstd::prelude::*;
use vstd::utf8::encode_utf8;

verus! {

/// The longest datagram the codec produces, in bytes.
pub const MAX_MESSAGE_LEN: usize = 64;

/// The byte that separates labels in a service name.
pub const LABEL_SEPARATOR: u8 = 0x2e;

/// The query header: transaction id 0, flags 0x0100, one question, and no
/// answer, authority or additional records.
pub open spec fn query_header() -> Seq<u8> {
    seq![0x00u8, 0x00, 0x01, 0x00, 0x00, 0x01, 0x00, 0x00, 0x00, 0x00, 0x00, 0x00]
}

/// What follows the name: query type PTR (12) and class IN (1).
pub open spec fn query_trailer() -> Seq<u8> {
    seq![0x00u8, 0x0c, 0x00, 0x01]
}

/// The labels of `name`: its bytes split at each separator, empty labels
/// included.
pub open spec fn split_labels(name: Seq<u8>) -> Seq<Seq<u8>>
    decreases name.len(),
{
    if name.len() == 0 {
        seq![Seq::<u8>::empty()]
    } else {
        let prev = split_labels(name.drop_last());
        if name.last() == LABEL_SEPARATOR {
            prev.push(Seq::<u8>::empty())
        } else {
            prev.update(prev.len() - 1, prev.last().push(name.last()))
        }
    }
}

/// One label on the wire: its length byte, then its bytes; nothing for an
/// empty label.
pub open spec fn label_bytes(label: Seq<u8>) -> Seq<u8> {
    if label.len() == 0 {
        Seq::<u8>::empty()
    } else {
        seq![label.len() as u8] + label
    }
}

/// The labels one after the other on the wire.
pub open spec fn labels_bytes(labels: Seq<Seq<u8>>) -> Seq<u8>
    decreases labels.len(),
{
    if labels.len() == 0 {
        Seq::<u8>::empty()
    } else {
        labels_bytes(labels.drop_last()) + label_bytes(labels.last())
    }
}

/// The query datagram for the service name whose bytes are `name`.
pub open spec fn discovery_query(name: Seq<u8>) -> Seq<u8> {
    query_header() + labels_bytes(split_labels(name)) + seq![0x00u8] + query_trailer()
}

/// Why a service name cannot be encoded.
#[derive(Debug, Clone, Copy, PartialEq, Eq, Structural)]
pub enum CodecError {
    /// The datagram would be longer than `MAX_MESSAGE_LEN` bytes.
    TooLong,
}

/// Appends `bytes[start..end]` to `out` as one label.
fn push_label(out: &mut Vec<u8>, bytes: &[u8], start: usize, end: usize)
    requires
        start <= end <= bytes@.len(),
    ensures
        final(out)@ == old(out)@ + label_bytes(bytes@.subrange(start as int, end as int)),
{
    if start < end {
        let ghost before = out@;
        out.push((end - start) as u8);
        let mut j: usize = start;
        while j < end
            invariant
                start <= j <= end <= bytes@.len(),
                out@ == before + seq![(end - start) as u8] + bytes@.subrange(start as int, j as int),
            decreases end - j,
        {
            out.push(bytes[j]);
            proof {
                assert(bytes@.subrange(start as int, j + 1) =~= bytes@.subrange(start as int, j as int).push(bytes@[j as int]));
            }
            j += 1;
        }
        assert(out@ =~= before + label_bytes(bytes@.subrange(start as int, end as int)));
    } else {
        assert(out@ =~= old(out)@ + label_bytes(bytes@.subrange(start as int, end as int)));
    }
}

/// Builds discovery datagrams.
pub struct DiscoveryMessageCodec;

impl DiscoveryMessageCodec {
    /// The query datagram for `service_name`, or `TooLong` when it would be
    /// longer than `MAX_MESSAGE_LEN` bytes. The result depends on the name
    /// alone.
    pub fn encode(service_name: &str) -> (r: Result<Vec<u8>, CodecError>)
        ensures
            match r {
                Ok(v) => v@ == discovery_query(encode_utf8(service_name@))
                    && v@.len() <= MAX_MESSAGE_LEN,
                Err(e) => e == CodecError::TooLong
                    && discovery_query(encode_utf8(service_name@)).len() > MAX_MESSAGE_LEN,
            },
    {
        let bytes = service_name.as_bytes();
        let n = bytes.len();
        let mut out: Vec<u8> = vec![0x00, 0x00, 0x01, 0x00, 0x00, 0x01, 0x00, 0x00, 0x00, 0x00, 0x00, 0x00];
        assert(out@ =~= query_header() + labels_bytes(split_labels(bytes@.subrange(0, 0)).drop_last()));
        let mut start: usize = 0;
        let mut i: usize = 0;
        while i < n
            invariant
                n == bytes@.len(),
                start <= i <= n,
                split_labels(bytes@.subrange(0, i as int)).len() >= 1,
                split_labels(bytes@.subrange(0, i as int)).last() == bytes@.subrange(start as int, i as int),
                out@ == query_header() + labels_bytes(split_labels(bytes@.subrange(0, i as int)).drop_last()),
            decreases n - i,
        {
            let b = bytes[i];
            let ghost prefix = bytes@.subrange(0, i as int);
            let ghost next = bytes@.subrange(0, i + 1);
            let ghost labels = split_labels(prefix);
            assert(next.drop_last() =~= prefix);
            assert(next.last() == b);
            if b == LABEL_SEPARATOR {
                push_label(&mut out, bytes, start, i);
                assert(split_labels(next) == labels.push(Seq::<u8>::empty()));
                assert(split_labels(next).drop_last() =~= labels);
                assert(labels_bytes(labels) == labels_bytes(labels.drop_last()) + label_bytes(labels.last()));
                assert(out@ =~= query_header() + labels_bytes(split_labels(next).drop_last()));
                assert(bytes@.subrange(i + 1, i + 1) =~= Seq::<u8>::empty());
                start = i + 1;
            } else {
                let ghost grown = labels.update(labels.len() - 1, labels.last().push(b));
                assert(split_labels(next) == grown);
                assert(grown.drop_last() =~= labels.drop_last());
                assert(grown.last() =~= bytes@.subrange(start as int, i + 1));
            }
            i += 1;
        }
        let ghost all = split_labels(bytes@);
        assert(bytes@.subrange(0, n as int) =~= bytes@);
        push_label(&mut out, bytes, start, n);
        assert(labels_bytes(all) == labels_bytes(all.drop_last()) + label_bytes(all.last()));
        assert(out@ =~= query_header() + labels_bytes(all));
        out.push(0x00);
        out.push(0x00);
        out.push(0x0c);
        out.push(0x00);
        out.push(0x01);
        assert(out@ =~= discovery_query(encode_utf8(service_name@)));
        if out.len() <= MAX_MESSAGE_LEN {
            Ok(out)
        } else {
            Err(CodecError::TooLong)
        }
    }
}

/// Encoding is a function of the name: two names with the same bytes give
/// the same datagram, and every datagram the codec hands out is at most
/// `MAX_MESSAGE_LEN` bytes long.
pub proof fn lemma_encode_deterministic(a: Seq<u8>, b: Seq<u8>)
    requires
        a == b,
    ensures
        discovery_query(a) == discovery_query(b),
        discovery_query(a).len() <= MAX_MESSAGE_LEN ==> discovery_query(b).len() <= MAX_MESSAGE_LEN,
{
}

} // verus!
