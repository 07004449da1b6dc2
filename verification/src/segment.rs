//! Splitting an Annex-B byte stream into access units.
//!
//! A start code is the byte triple `00 00 01`. An access unit begins at a
//! start code and runs up to the next start code, or to the end of the
//! stream. Bytes in front of the first start code belong to no unit.

use vstd::prelude::*;

verus! {

/// A start code begins at position `i` of `stream`.
pub open spec fn start_code_at(stream: Seq<u8>, i: int) -> bool {
    &&& 0 <= i
    &&& i + 3 <= stream.len()
    &&& stream[i] == 0
    &&& stream[i + 1] == 0
    &&& stream[i + 2] == 1
}

/// The position of the first start code at or after `from`, or the length of
/// the stream where there is none.
pub open spec fn next_start(stream: Seq<u8>, from: int) -> int
    decreases stream.len() - from,
{
    if from < 0 || from >= stream.len() {
        stream.len() as int
    } else if start_code_at(stream, from) {
        from
    } else {
        next_start(stream, from + 1)
    }
}

/// The access units that begin at or after `start`, where `start` is the
/// position of a start code or the length of the stream.
pub open spec fn access_units_from(stream: Seq<u8>, start: int) -> Seq<Seq<u8>>
    decreases stream.len() - start,
{
    if start < 0 || start >= stream.len() {
        Seq::empty()
    } else {
        proof {
            lemma_next_start(stream, start + 1);
        }
        let end = next_start(stream, start + 1);
        seq![stream.subrange(start, end)] + access_units_from(stream, end)
    }
}

/// The access units of a stream, in stream order. Each keeps its start code.
pub open spec fn access_units(stream: Seq<u8>) -> Seq<Seq<u8>> {
    access_units_from(stream, next_start(stream, 0))
}

/// A stream that loses nothing when it is split: it is empty or opens with a
/// start code.
pub open spec fn well_framed(stream: Seq<u8>) -> bool {
    stream.len() == 0 || start_code_at(stream, 0)
}

/// `next_start` lands inside `from..=len`, on a start code unless it is `len`,
/// and passes over no start code on the way.
pub proof fn lemma_next_start(stream: Seq<u8>, from: int)
    requires
        0 <= from <= stream.len(),
    ensures
        from <= next_start(stream, from) <= stream.len(),
        next_start(stream, from) < stream.len() ==> start_code_at(
            stream,
            next_start(stream, from),
        ),
        forall|i: int| from <= i < next_start(stream, from) ==> !start_code_at(stream, i),
    decreases stream.len() - from,
{
    if from < stream.len() && !start_code_at(stream, from) {
        lemma_next_start(stream, from + 1);
    }
}

/// Every unit that begins at or after a start code opens with a start code
/// and holds no other.
pub proof fn lemma_units_from_shape(stream: Seq<u8>, start: int, k: int)
    requires
        0 <= start <= stream.len(),
        start < stream.len() ==> start_code_at(stream, start),
        0 <= k < access_units_from(stream, start).len(),
    ensures
        start_code_at(access_units_from(stream, start)[k], 0),
        forall|i: int| 0 < i ==> !start_code_at(access_units_from(stream, start)[k], i),
    decreases stream.len() - start,
{
    let end = next_start(stream, start + 1);
    lemma_next_start(stream, start + 1);
    let unit = stream.subrange(start, end);
    if k == 0 {
        assert(access_units_from(stream, start)[0] == unit);
        assert forall|i: int| 0 < i implies !start_code_at(unit, i) by {
            if start_code_at(unit, i) {
                assert(start_code_at(stream, start + i));
            }
        }
    } else {
        assert(access_units_from(stream, start)[k] == access_units_from(stream, end)[k - 1]);
        lemma_units_from_shape(stream, end, k - 1);
    }
}

/// Every access unit opens with a start code and holds no other.
pub proof fn lemma_unit_shape(stream: Seq<u8>, k: int)
    requires
        0 <= k < access_units(stream).len(),
    ensures
        start_code_at(access_units(stream)[k], 0),
        forall|i: int| 0 < i ==> !start_code_at(access_units(stream)[k], i),
{
    lemma_next_start(stream, 0);
    lemma_units_from_shape(stream, next_start(stream, 0), k);
}

/// Joining the units that begin at or after a start code gives back the
/// stream from that start code on.
pub proof fn lemma_units_from_join(stream: Seq<u8>, start: int)
    requires
        0 <= start <= stream.len(),
    ensures
        access_units_from(stream, start).flatten() == stream.subrange(
            start,
            stream.len() as int,
        ),
    decreases stream.len() - start,
{
    if start >= stream.len() {
        assert(access_units_from(stream, start).flatten() =~= Seq::<u8>::empty());
        assert(stream.subrange(start, stream.len() as int) =~= Seq::<u8>::empty());
    } else {
        let end = next_start(stream, start + 1);
        lemma_next_start(stream, start + 1);
        lemma_units_from_join(stream, end);
        let units = access_units_from(stream, start);
        assert(units.first() == stream.subrange(start, end));
        assert(units.drop_first() =~= access_units_from(stream, end));
        assert(stream.subrange(start, end) + stream.subrange(end, stream.len() as int)
            =~= stream.subrange(start, stream.len() as int));
    }
}

/// Joining all access units of a stream gives back the stream without the
/// bytes in front of its first start code.
pub proof fn lemma_units_join(stream: Seq<u8>)
    ensures
        access_units(stream).flatten() == stream.subrange(
            next_start(stream, 0),
            stream.len() as int,
        ),
{
    lemma_next_start(stream, 0);
    lemma_units_from_join(stream, next_start(stream, 0));
}

/// Round trip: a well-framed stream is the concatenation of its access units.
pub proof fn lemma_round_trip(stream: Seq<u8>)
    requires
        well_framed(stream),
    ensures
        access_units(stream).flatten() == stream,
{
    lemma_units_join(stream);
    assert(stream.subrange(0, stream.len() as int) =~= stream);
}

/// A loaded video: the access units of one stream, in stream order.
#[derive(Debug)]
pub struct H264Video {
    buffer: Vec<Vec<u8>>,
}

impl View for H264Video {
    type V = Seq<Seq<u8>>;

    closed spec fn view(&self) -> Seq<Seq<u8>> {
        self.buffer.deep_view()
    }
}

impl H264Video {
    /// The number of access units.
    pub fn len(&self) -> (count: usize)
        ensures
            count == self@.len(),
    {
        self.buffer.len()
    }

    /// The access unit at `index`, or `None` past the end.
    pub fn unit(&self, index: usize) -> (unit: Option<&Vec<u8>>)
        ensures
            index < self@.len() ==> unit is Some && unit.unwrap()@ == self@[index as int],
            index >= self@.len() ==> unit is None,
    {
        if index < self.buffer.len() {
            Some(&self.buffer[index])
        } else {
            None
        }
    }
}

/// Why a video could not be loaded.
#[derive(Debug)]
pub enum H264VideoLoaderError {
    /// The stream could not be read to its end.
    Io(std::io::Error),
}

/// Loads `.h264` streams as [`H264Video`].
#[derive(Debug, Default)]
pub struct H264VideoLoader;

impl H264VideoLoader {
    /// The file extensions of the streams that this loader takes.
    pub fn extensions(&self) -> (extensions: &'static [&'static str])
        ensures
            extensions@.len() == 1,
            extensions@[0]@ == "h264"@,
    {
        &["h264"]
    }

    /// Turns what reading a stream gave into a video: the access units of the
    /// bytes that were read, or the read's own error.
    pub fn load(&self, read: Result<Vec<u8>, std::io::Error>) -> (loaded: Result<
        H264Video,
        H264VideoLoaderError,
    >)
        ensures
            match read {
                Ok(bytes) => loaded is Ok && loaded->Ok_0@ == access_units(bytes@),
                Err(error) => loaded == Err::<H264Video, _>(H264VideoLoaderError::Io(error)),
            },
    {
        match read {
            Ok(bytes) => {
                let buffer = split_nal_units(bytes.as_slice());
                Ok(H264Video { buffer })
            },
            Err(error) => Err(H264VideoLoaderError::Io(error)),
        }
    }
}

/// `std::io::Error`, carried through unread.
#[verifier::external_type_specification]
#[verifier::external_body]
pub struct ExIoError(std::io::Error);

/// `openh264::nal_units`, with each unit copied out of the stream. The crate
/// skips what lies in front of the first `00 00 01`, cuts at every later
/// `00 00 01`, and hands out the last unit up to the end of the stream; the
/// units come in stream order.
#[verifier::external_body]
fn split_nal_units(stream: &[u8]) -> (units: Vec<Vec<u8>>)
    ensures
        units.deep_view() == access_units(stream@),
{
    openh264::nal_units(stream).map(|nal| nal.to_vec()).collect()
}

} // verus!
