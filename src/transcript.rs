use vstd::prelude::*;

verus! {

/// The byte that stands in place of every undisclosed transcript byte.
pub const SENTINEL: u8 = 88;

/// One direction of a notarized transcript: the bytes as carried in the
/// presentation and the half-open ranges of positions that were disclosed.
pub struct TranscriptDirection {
    pub data: Vec<u8>,
    pub disclosed: Vec<(usize, usize)>,
}

/// Both directions of a notarized transcript.
pub struct PartialTranscript {
    pub sent: TranscriptDirection,
    pub received: TranscriptDirection,
}

/// Position `i` lies in one of the disclosed ranges.
pub open spec fn is_disclosed(ranges: Seq<(usize, usize)>, i: int) -> bool {
    exists|k: int| 0 <= k < ranges.len() && #[trigger] ranges[k].0 <= i && i < ranges[k].1
}

/// The bytes with every undisclosed position replaced by the sentinel.
pub open spec fn redacted(data: Seq<u8>, ranges: Seq<(usize, usize)>) -> Seq<u8> {
    Seq::new(data.len(), |i: int| if is_disclosed(ranges, i) { data[i] } else { SENTINEL })
}

/// The text that lossy UTF-8 decoding gives for some bytes.
pub uninterp spec fn utf8_lossy(bytes: Seq<u8>) -> Seq<char>;

/// Relies on String::from_utf8_lossy: the text depends on the bytes alone.
#[verifier::external_body]
fn lossy_text(bytes: &[u8]) -> (r: String)
    ensures
        r@ == utf8_lossy(bytes@),
{
    String::from_utf8_lossy(bytes).into_owned()
}

fn covers(ranges: &Vec<(usize, usize)>, i: usize) -> (r: bool)
    ensures
        r == is_disclosed(ranges@, i as int),
{
    let mut k: usize = 0;
    while k < ranges.len()
        invariant
            0 <= k <= ranges@.len(),
            forall|j: int| 0 <= j < k ==> !(ranges@[j].0 <= i && i < ranges@[j].1),
        decreases ranges@.len() - k,
    {
        let (start, end) = ranges[k];
        if start <= i && i < end {
            return true;
        }
        k = k + 1;
    }
    false
}

impl TranscriptDirection {
    /// The bytes of this direction with every position outside the disclosed
    /// ranges overwritten by the sentinel.
    pub fn redact(&self) -> (r: Vec<u8>)
        ensures
            r@ == redacted(self.data@, self.disclosed@),
    {
        let mut out: Vec<u8> = Vec::new();
        let mut i: usize = 0;
        while i < self.data.len()
            invariant
                0 <= i <= self.data@.len(),
                out@ =~= redacted(self.data@, self.disclosed@).subrange(0, i as int),
            decreases self.data@.len() - i,
        {
            if covers(&self.disclosed, i) {
                out.push(self.data[i]);
            } else {
                out.push(SENTINEL);
            }
            i = i + 1;
        }
        assert(out@ =~= redacted(self.data@, self.disclosed@));
        out
    }

    /// The redacted bytes of this direction rendered as text; invalid UTF-8
    /// becomes replacement characters.
    pub fn disclosed_text(&self) -> (r: String)
        ensures
            r@ == utf8_lossy(redacted(self.data@, self.disclosed@)),
    {
        let bytes = self.redact();
        lossy_text(bytes.as_slice())
    }
}

} // verus!
