use vstd::prelude::*;

verus! {

/// A decoded image: four bytes per pixel, in the order blue, green, red,
/// alpha, row after row.
pub struct PngImage {
    pub width: usize,
    pub height: usize,
    pub data: Vec<u8>,
}

/// A point marker in two versions: as drawn normally, and faded for things
/// that are hidden.
pub struct CircleImage {
    pub normal: PngImage,
    pub transparent: PngImage,
}

/// `data` with the alpha byte of every whole pixel divided by four.
pub open spec fn faded(data: Seq<u8>) -> Seq<u8> {
    Seq::new(
        data.len(),
        |i: int|
            if i % 4 == 3 && i < data.len() / 4 * 4 {
                (data[i] / 4) as u8
            } else {
                data[i]
            },
    )
}

impl CircleImage {
    /// Keeps `normal` and derives its faded version.
    pub fn new(normal: PngImage) -> (r: CircleImage)
        ensures
            r.normal.width == normal.width,
            r.normal.height == normal.height,
            r.normal.data@ == normal.data@,
            r.transparent.width == normal.width,
            r.transparent.height == normal.height,
            r.transparent.data@ == faded(normal.data@),
    {
        let n = normal.data.len();
        let pixels = n / 4;
        let mut data: Vec<u8> = Vec::new();
        let mut i: usize = 0;
        while i < n
            invariant
                n == normal.data@.len(),
                pixels == n / 4,
                i <= n,
                data@ == faded(normal.data@).take(i as int),
            decreases n - i,
        {
            let b = normal.data[i];
            if i % 4 == 3 && i < pixels * 4 {
                data.push(b / 4);
            } else {
                data.push(b);
            }
            i = i + 1;
            proof {
                assert(data@ =~= faded(normal.data@).take(i as int));
            }
        }
        proof {
            assert(faded(normal.data@).take(n as int) =~= faded(normal.data@));
        }
        let transparent = PngImage { width: normal.width, height: normal.height, data };
        CircleImage { normal, transparent }
    }
}

} // verus!
