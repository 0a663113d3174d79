use vstd::prelude::*;

verus! {

/// The RGB bytes of an RGBA byte sequence: the alpha byte of every
/// four-byte pixel is dropped and pixel order is preserved.  Trailing
/// bytes that do not form a whole pixel contribute nothing.
pub open spec fn rgb_of(s: Seq<u8>) -> Seq<u8>
    decreases s.len(),
{
    if s.len() < 4 {
        Seq::empty()
    } else {
        seq![s[0], s[1], s[2]] + rgb_of(s.skip(4))
    }
}

/// Channel conversion works pixel by pixel, so it distributes over any
/// split of the input into chunks of whole pixels: converting the
/// chunks separately and concatenating gives the same bytes as
/// converting the whole input.  Hence every chunking or parallelism
/// strategy yields a byte-identical result.
pub proof fn lemma_rgb_of_concat(a: Seq<u8>, b: Seq<u8>)
    requires
        a.len() % 4 == 0,
    ensures
        rgb_of(a + b) == rgb_of(a) + rgb_of(b),
    decreases a.len(),
{
    if a.len() == 0 {
        assert(a + b =~= b);
        assert(rgb_of(a) + rgb_of(b) =~= rgb_of(b));
    } else {
        assert((a + b).skip(4) =~= a.skip(4) + b);
        lemma_rgb_of_concat(a.skip(4), b);
        assert(rgb_of(a + b) =~= rgb_of(a) + rgb_of(b));
    }
}

/// An RGBA input of `p` whole pixels converts to exactly `3 p` bytes.
pub proof fn lemma_rgb_of_len(s: Seq<u8>)
    ensures
        rgb_of(s).len() == 3 * (s.len() / 4),
    decreases s.len(),
{
    if s.len() >= 4 {
        lemma_rgb_of_len(s.skip(4));
    }
}

/// Every input pixel maps to the same output position whatever the
/// execution order: channel `c` of pixel `p` of the output is channel
/// `c` of pixel `p` of the input.
pub proof fn lemma_rgb_of_index(s: Seq<u8>, p: int, c: int)
    requires
        0 <= p < s.len() / 4,
        0 <= c < 3,
    ensures
        rgb_of(s)[3 * p + c] == s[4 * p + c],
    decreases p,
{
    lemma_rgb_of_len(s.skip(4));
    if p > 0 {
        lemma_rgb_of_index(s.skip(4), p - 1, c);
    }
}

proof fn lemma_rgb_of_take_step(s: Seq<u8>, p: int)
    requires
        0 <= p,
        4 * p + 4 <= s.len(),
    ensures
        rgb_of(s.take(4 * p + 4)) == rgb_of(s.take(4 * p)) + seq![
            s[4 * p],
            s[4 * p + 1],
            s[4 * p + 2],
        ],
{
    let a = s.take(4 * p);
    let pix = seq![s[4 * p], s[4 * p + 1], s[4 * p + 2], s[4 * p + 3]];
    assert(s.take(4 * p + 4) =~= a + pix);
    lemma_rgb_of_concat(a, pix);
    assert(pix.len() == 4);
    assert(rgb_of(pix.skip(4)) =~= Seq::<u8>::empty());
    assert(rgb_of(pix) == seq![pix[0], pix[1], pix[2]] + rgb_of(pix.skip(4)));
    assert(rgb_of(pix) =~= seq![s[4 * p], s[4 * p + 1], s[4 * p + 2]]);
}

proof fn lemma_rgb_of_drop_tail(s: Seq<u8>)
    ensures
        rgb_of(s.take(4 * (s.len() / 4) as int)) == rgb_of(s),
{
    let m: int = 4 * (s.len() / 4) as int;
    assert(s =~= s.take(m) + s.skip(m));
    lemma_rgb_of_concat(s.take(m), s.skip(m));
    assert(rgb_of(s.skip(m)) =~= Seq::empty());
    assert(rgb_of(s.take(m)) + Seq::<u8>::empty() =~= rgb_of(s.take(m)));
}

/// Drops the alpha byte of every pixel of an RGBA buffer, front to
/// back, producing the RGB buffer of the same pixels in the same order.
#[verifier::loop_isolation(false)]
pub fn rgba_to_rgb(data: &Vec<u8>) -> (r: Vec<u8>)
    ensures
        r@ == rgb_of(data@),
{
    let n_pixels: usize = data.len() / 4;
    let mut out: Vec<u8> = Vec::new();
    let mut p: usize = 0;
    while p < n_pixels
        invariant
            p <= n_pixels,
            out@ == rgb_of(data@.take(4 * p as int)),
        decreases n_pixels - p,
    {
        out.push(data[4 * p]);
        out.push(data[4 * p + 1]);
        out.push(data[4 * p + 2]);
        proof {
            lemma_rgb_of_take_step(data@, p as int);
        }
        p += 1;
    }
    proof {
        lemma_rgb_of_drop_tail(data@);
    }
    out
}

/// The same conversion, performed over chunks of at most `chunk` whole
/// pixels at a time, as a data-parallel implementation would batch it.
/// The output is byte-identical to `rgba_to_rgb` on the same input,
/// whatever the chunk size.
#[verifier::loop_isolation(false)]
pub fn rgba_to_rgb_chunked(data: &Vec<u8>, chunk: usize) -> (r: Vec<u8>)
    requires
        chunk >= 1,
    ensures
        r@ == rgb_of(data@),
{
    let n_pixels: usize = data.len() / 4;
    let mut out: Vec<u8> = Vec::new();
    let mut start: usize = 0;
    while start < n_pixels
        invariant
            start <= n_pixels,
            out@ == rgb_of(data@.take(4 * start as int)),
        decreases n_pixels - start,
    {
        let end: usize = if n_pixels - start < chunk {
            n_pixels
        } else {
            start + chunk
        };
        let mut p: usize = start;
        while p < end
            invariant
                start <= p <= end <= n_pixels,
                out@ == rgb_of(data@.take(4 * p as int)),
            decreases end - p,
        {
            out.push(data[4 * p]);
            out.push(data[4 * p + 1]);
            out.push(data[4 * p + 2]);
            proof {
                lemma_rgb_of_take_step(data@, p as int);
            }
            p += 1;
        }
        start = end;
    }
    proof {
        lemma_rgb_of_drop_tail(data@);
    }
    out
}

} // verus!
