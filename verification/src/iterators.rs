//! Walking over collections: summing, mapping, filtering, and a counter that
//! is its own source of items.

use vstd::prelude::*;
use vstd::string::StringExecFns;

verus! {

/// A source of items that is advanced one item at a time.
pub trait Iteratorr {
    /// The type of the items.
    type Item;

    /// Advances the source and returns the next item, or `None` when there
    /// is none left.
    fn next(&mut self) -> Option<Self::Item>;
}

/// A shoe of a size and a style.
#[derive(PartialEq, Debug)]
pub struct Shoe {
    pub size: u32,
    pub style: String,
}

impl Shoe {
    /// A shoe of the given size and style.
    pub fn new(size: u32, style: &str) -> (shoe: Shoe)
        ensures
            shoe.size == size,
            shoe.style@ == style@,
    {
        Shoe { size, style: String::from_str(style) }
    }
}

/// The shoes of `shoes` that have the size `shoe_size`, in their order.
pub fn shoes_in_my_size(shoes: Vec<Shoe>, shoe_size: u32) -> (fitting: Vec<Shoe>)
    ensures
        fitting@ == shoes@.filter(|s: Shoe| s.size == shoe_size),
{
    let ghost fits = |s: Shoe| s.size == shoe_size;
    let mut fitting: Vec<Shoe> = Vec::new();
    for shoe in iter: shoes
        invariant
            iter.seq() == shoes@,
            forall|s: Shoe| fits(s) == (s.size == shoe_size),
            fitting@ == shoes@.take(iter.index()).filter(fits),
    {
        proof {
            reveal(Seq::filter);
            let next = shoes@.take(iter.index() + 1);
            assert(next.drop_last() =~= shoes@.take(iter.index()));
            assert(next.last() == shoe);
        }
        if shoe.size == shoe_size {
            fitting.push(shoe);
        }
    }
    proof {
        assert(shoes@.take(shoes@.len() as int) =~= shoes@);
    }
    fitting
}

/// Counts from 1 to 5 and then has nothing more to give.
pub struct Counter {
    count: u32,
}

impl View for Counter {
    type V = nat;

    /// How many times the counter was advanced.
    closed spec fn view(&self) -> nat {
        self.count as nat
    }
}

impl Counter {
    /// A counter that has not been advanced yet.
    pub fn new() -> (counter: Counter)
        ensures
            counter@ == 0,
    {
        Counter { count: 0 }
    }
}

impl Iteratorr for Counter {
    type Item = u32;

    /// Advances the counter. The first five advances give 1 to 5, every later
    /// one gives nothing. The count of advances stops growing at `u32::MAX`.
    fn next(&mut self) -> (item: Option<u32>)
        ensures
            final(self)@ == if old(self)@ < u32::MAX {
                old(self)@ + 1
            } else {
                old(self)@
            },
            item == if old(self)@ < 5 {
                Some((old(self)@ + 1) as u32)
            } else {
                None
            },
    {
        if self.count < u32::MAX {
            self.count += 1;
        }
        if self.count < 6 {
            Some(self.count)
        } else {
            None
        }
    }
}

/// The sum of the numbers of `numbers`.
pub open spec fn total(numbers: Seq<u32>) -> int
    decreases numbers.len(),
{
    if numbers.len() == 0 {
        0
    } else {
        total(numbers.drop_last()) + numbers.last()
    }
}

/// Adds up 1, 2 and 3 by walking over them: the sum is 6.
pub fn consuming_adaptor_sum() -> (sum: u32)
    ensures
        sum == 6,
{
    let v1: Vec<u32> = vec![1, 2, 3];
    let mut sum: u32 = 0;
    let mut i: usize = 0;
    while i < v1.len()
        invariant
            i <= v1.len(),
            v1@ == seq![1u32, 2u32, 3u32],
            sum == total(v1@.take(i as int)),
            sum <= 3 * i,
        decreases v1.len() - i,
    {
        proof {
            let next = v1@.take(i + 1);
            assert(next.drop_last() =~= v1@.take(i as int));
            assert(next.last() == v1@[i as int]);
        }
        sum = sum + v1[i];
        i = i + 1;
    }
    proof {
        let s3 = v1@.take(3);
        let s2 = s3.drop_last();
        let s1 = s2.drop_last();
        assert(s1.last() == 1 && s2.last() == 2 && s3.last() == 3);
        assert(s1.drop_last().len() == 0);
        assert(total(s1.drop_last()) == 0);
        assert(total(s1) == 1);
        assert(total(s2) == 3);
        assert(total(s3) == 6);
    }
    sum
}

/// Doubles each of 1, 2 and 3: the result is 2, 4, 6.
pub fn iterator_adaptor() -> (v2: Vec<i32>)
    ensures
        v2@ == seq![2i32, 4i32, 6i32],
{
    let v1: Vec<i32> = vec![1, 2, 3];
    let mut v2: Vec<i32> = Vec::new();
    let mut i: usize = 0;
    while i < v1.len()
        invariant
            i <= v1.len(),
            v1@ == seq![1i32, 2i32, 3i32],
            v2.len() == i,
            forall|j: int| 0 <= j < i ==> v2[j] == 2 * v1[j],
        decreases v1.len() - i,
    {
        v2.push(v1[i] * 2);
        i = i + 1;
    }
    assert(v2@ =~= seq![2i32, 4i32, 6i32]);
    v2
}

} // verus!
