//! Closures and iterators: closures that borrow or take what they use, a
//! hand-written iterator, and the usual adaptors written as loops.

use crate::text::{join, list_debug, list_debug_text};
use vstd::prelude::*;
use vstd::string::*;

verus! {

/// One more than `x`, as a function.
pub fn add_one_v1(x: u32) -> (r: u32)
    requires
        x < u32::MAX,
    ensures
        r == x + 1,
{
    x + 1
}

/// Calls a closure that hands its argument back, then three closures that
/// add one, written with more or fewer annotations. Returns what they gave
/// for 10, 3 and 3.
pub fn closures() -> (r: (u32, u32, u8))
    ensures
        r == (10u32, 4u32, 4u8),
{
    let expensive_closure = |num: u32| -> (r: u32)
        ensures
            r == num,
        { num };
    let answer = expensive_closure(10);
    let add_one_v2 = |x: u32| -> (r: u32)
        requires
            x < u32::MAX,
        ensures
            r == x + 1,
        { x + 1 };
    let add_one_v3 = |x: u32| -> (r: u32)
        requires
            x < u32::MAX,
        ensures
            r == x + 1,
        { x + 1 };
    let add_one_v4 = |x: u8| -> (r: u8)
        requires
            x < u8::MAX,
        ensures
            r == x + 1,
        { x + 1 };
    let three = add_one_v3(3u32);
    let four = add_one_v4(3u8);
    (answer, three, four)
}

/// A heading: the title between two dashes and a space on each side,
/// followed by one dash for each byte that the title is short of 70.
pub open spec fn heading(title: &str) -> Seq<char> {
    "-- "@ + title@ + " --"@ + Seq::new((70 - title.len()) as nat, |i: int| '-')
}

/// The heading line for a section.
pub fn sep(s: &str) -> (line: String)
    requires
        s.len() <= 70,
    ensures
        line@ == heading(s),
{
    let mut line = String::from_str("-- ");
    line.append(s);
    line.append(" --");
    let ghost start = line@;
    let count: usize = 70 - s.len();
    let mut i: usize = 0;
    while i < count
        invariant
            i <= count,
            line@ == start + Seq::new(i as nat, |j: int| '-'),
        decreases count - i,
    {
        line.push('-');
        assert(line@ =~= start + Seq::new((i + 1) as nat, |j: int| '-'));
        i = i + 1;
    }
    line
}

/// The list 1, 2, 3.
fn one_two_three() -> (list: Vec<i32>)
    ensures
        list@ == seq![1i32, 2i32, 3i32],
{
    let mut list: Vec<i32> = Vec::new();
    list.push(1);
    list.push(2);
    list.push(3);
    assert(list@ =~= seq![1i32, 2i32, 3i32]);
    list
}

/// A closure that only reads a list leaves it usable before and after the
/// call. Returns the four lines that show the list at each point.
pub fn closure_immutable_borrow() -> (lines: Vec<String>)
    ensures
        lines@.len() == 4,
        lines@[0]@ == "Before defining closure: "@ + list_debug(seq![1i32, 2i32, 3i32]),
        lines@[1]@ == "Before calling closure: "@ + list_debug(seq![1i32, 2i32, 3i32]),
        lines@[2]@ == "From closure: "@ + list_debug(seq![1i32, 2i32, 3i32]),
        lines@[3]@ == "After calling closure: "@ + list_debug(seq![1i32, 2i32, 3i32]),
{
    let list = one_two_three();
    let mut lines: Vec<String> = Vec::new();
    lines.push(join("Before defining closure: ", list_debug_text(&list).as_str()));
    let only_borrows = || -> (line: String)
        ensures
            line@ == "From closure: "@ + list_debug(list@),
        { join("From closure: ", list_debug_text(&list).as_str()) };
    lines.push(join("Before calling closure: ", list_debug_text(&list).as_str()));
    lines.push(only_borrows());
    lines.push(join("After calling closure: ", list_debug_text(&list).as_str()));
    lines
}

/// Appends 7 to a list.
pub fn borrows_mutably(list: &mut Vec<i32>)
    ensures
        final(list)@ == old(list)@.push(7i32),
{
    list.push(7);
}

/// Changing a list through a mutable borrow: the list before and after 7 is
/// appended.
pub fn closure_mutable_borrow() -> (lines: Vec<String>)
    ensures
        lines@.len() == 2,
        lines@[0]@ == "Before defining closure: "@ + list_debug(seq![1i32, 2i32, 3i32]),
        lines@[1]@ == "After calling closure: "@ + list_debug(seq![1i32, 2i32, 3i32, 7i32]),
{
    let mut list = one_two_three();
    let mut lines: Vec<String> = Vec::new();
    lines.push(join("Before defining closure: ", list_debug_text(&list).as_str()));
    borrows_mutably(&mut list);
    assert(list@ =~= seq![1i32, 2i32, 3i32, 7i32]);
    lines.push(join("After calling closure: ", list_debug_text(&list).as_str()));
    lines
}

/// A closure that takes ownership of the list it shows, as one handed to
/// another thread must.
pub fn closure_move_ownership() -> (lines: Vec<String>)
    ensures
        lines@.len() == 2,
        lines@[0]@ == "Before defining closure: "@ + list_debug(seq![1i32, 2i32, 3i32]),
        lines@[1]@ == "From thread: "@ + list_debug(seq![1i32, 2i32, 3i32]),
{
    let list = one_two_three();
    let mut lines: Vec<String> = Vec::new();
    lines.push(join("Before defining closure: ", list_debug_text(&list).as_str()));
    let move_closure = move || -> (line: String)
        ensures
            line@ == "From thread: "@ + list_debug(seq![1i32, 2i32, 3i32]),
        { join("From thread: ", list_debug_text(&list).as_str()) };
    lines.push(move_closure());
    lines
}

/// The value inside, or else what the closure computes.
pub fn unwrap_or_default<T, F>(opt: Option<T>, f: F) -> (r: T) where F: FnOnce() -> T
    requires
        opt is None ==> f.requires(()),
    ensures
        opt is Some ==> r == opt->0,
        opt is None ==> f.ensures((), r),
{
    match opt {
        Some(x) => x,
        None => f(),
    }
}

/// Something that hands out items one at a time until none are left.
pub trait MyIterator {
    type Item;

    fn next(&mut self) -> Option<Self::Item>;
}

/// An iterator over a list of numbers.
pub struct Numbers {
    pub items: Vec<i32>,
    pub position: usize,
}

impl Numbers {
    /// An iterator at the start of `items`.
    pub fn new(items: Vec<i32>) -> (it: Numbers)
        ensures
            it.items == items,
            it.position == 0,
    {
        Numbers { items, position: 0 }
    }

    /// What is still to come.
    pub open spec fn remaining(self) -> Seq<i32> {
        if self.position <= self.items@.len() {
            self.items@.subrange(self.position as int, self.items@.len() as int)
        } else {
            Seq::empty()
        }
    }
}

impl MyIterator for Numbers {
    type Item = i32;

    /// Hands out the first of the remaining items, if there is one.
    fn next(&mut self) -> (r: Option<i32>)
        ensures
            old(self).remaining().len() > 0 ==> r == Some(old(self).remaining()[0])
                && final(self).remaining() == old(self).remaining().drop_first(),
            old(self).remaining().len() == 0 ==> r is None && final(self).remaining().len() == 0,
    {
        if self.position < self.items.len() {
            let item = self.items[self.position];
            self.position = self.position + 1;
            assert(self.remaining() =~= old(self).remaining().drop_first());
            Some(item)
        } else {
            None
        }
    }
}

/// Steps through 1, 2, 3: three items, then nothing.
pub fn iterator_demonstration() -> (r: (Option<i32>, Option<i32>, Option<i32>, Option<i32>))
    ensures
        r == (Some(1i32), Some(2i32), Some(3i32), None::<i32>),
{
    let v1 = one_two_three();
    let mut v1_iter = Numbers::new(v1);
    assert(v1_iter.remaining() =~= seq![1i32, 2i32, 3i32]);
    let first = v1_iter.next();
    let second = v1_iter.next();
    let third = v1_iter.next();
    let fourth = v1_iter.next();
    (first, second, third, fourth)
}

/// The sum of a list of numbers.
pub open spec fn total(v: Seq<i32>) -> int
    decreases v.len(),
{
    if v.len() == 0 {
        0
    } else {
        total(v.drop_last()) + v.last()
    }
}

/// Whether every running total of the list, from the front, is an `i32`.
pub open spec fn sums_fit(v: Seq<i32>) -> bool {
    forall|k: int| 0 <= k <= v.len() ==> i32::MIN <= #[trigger] total(v.subrange(0, k)) <= i32::MAX
}

/// Adds up the numbers an iterator hands out, using it up.
pub fn sum(iter: Numbers) -> (r: i32)
    requires
        sums_fit(iter.remaining()),
    ensures
        r == total(iter.remaining()),
{
    let mut iter = iter;
    let ghost all = iter.remaining();
    let ghost mut done: int = 0;
    let mut acc: i32 = 0;
    assert(all.subrange(0, 0) =~= Seq::<i32>::empty());
    loop
        invariant
            0 <= done <= all.len(),
            sums_fit(all),
            iter.remaining() == all.subrange(done, all.len() as int),
            acc == total(all.subrange(0, done)),
        ensures
            acc == total(all),
        decreases all.len() - done,
    {
        match iter.next() {
            Some(item) => {
                proof {
                    let longer = all.subrange(0, done + 1);
                    assert(longer.drop_last() =~= all.subrange(0, done));
                    assert(longer.last() == item);
                    assert(total(longer) == acc + item);
                    assert(i32::MIN <= total(all.subrange(0, done + 1)) <= i32::MAX);
                    assert(iter.remaining() =~= all.subrange(done + 1, all.len() as int));
                    done = done + 1;
                }
                acc = acc + item;
            },
            None => {
                assert(all.subrange(0, done) =~= all);
                break ;
            },
        }
    }
    acc
}

/// The total of 1, 2 and 3 is 6.
proof fn lemma_total_of_three()
    ensures
        total(seq![1i32, 2i32, 3i32]) == 6,
        sums_fit(seq![1i32, 2i32, 3i32]),
{
    let v = seq![1i32, 2i32, 3i32];
    assert(v.subrange(0, 0) =~= Seq::<i32>::empty());
    assert(v.subrange(0, 1) =~= seq![1i32]);
    assert(v.subrange(0, 2) =~= seq![1i32, 2i32]);
    assert(v.subrange(0, 3) =~= v);
    assert(seq![1i32].drop_last() =~= Seq::<i32>::empty());
    assert(seq![1i32, 2i32].drop_last() =~= seq![1i32]);
    assert(v.drop_last() =~= seq![1i32, 2i32]);
    assert(total(Seq::<i32>::empty()) == 0);
    assert(total(seq![1i32]) == 1);
    assert(total(seq![1i32, 2i32]) == 3);
    assert(total(v) == 6);
    assert forall|k: int| 0 <= k <= v.len() implies i32::MIN <= #[trigger] total(
        v.subrange(0, k),
    ) <= i32::MAX by {
        if k == 0 {
        } else if k == 1 {
        } else if k == 2 {
        } else {
            assert(k == 3);
        }
    }
}

/// Summing takes the iterator; the total of 1, 2 and 3 is 6.
pub fn the_sum_method_consumes_the_iterator() -> (total: i32)
    ensures
        total == 6,
{
    let v1 = one_two_three();
    let v1_iter = Numbers::new(v1);
    proof {
        lemma_total_of_three();
        assert(v1_iter.remaining() =~= seq![1i32, 2i32, 3i32]);
    }
    sum(v1_iter)
}

/// Each number of the list plus one, in the same order.
pub fn add_one_to_each(v: &Vec<i32>) -> (r: Vec<i32>)
    requires
        forall|i: int| 0 <= i < v@.len() ==> v@[i] < i32::MAX,
    ensures
        r@ == v@.map_values(|x: i32| (x + 1) as i32),
{
    let mut r: Vec<i32> = Vec::new();
    let mut i: usize = 0;
    while i < v.len()
        invariant
            i <= v@.len(),
            forall|j: int| 0 <= j < v@.len() ==> v@[j] < i32::MAX,
            r@ == v@.subrange(0, i as int).map_values(|x: i32| (x + 1) as i32),
        decreases v@.len() - i,
    {
        r.push(v[i] + 1);
        assert(r@ =~= v@.subrange(0, i + 1).map_values(|x: i32| (x + 1) as i32));
        i = i + 1;
    }
    assert(v@.subrange(0, i as int) =~= v@);
    r
}

/// An adaptor alone computes nothing: the list is untouched until something
/// asks for the items.
pub fn methods_like_map_and_filter_return_a_new_iterator() -> (v1: Vec<i32>)
    ensures
        v1@ == seq![1i32, 2i32, 3i32],
{
    one_two_three()
}

/// Collecting the mapped items of 1, 2, 3 gives 2, 3, 4.
pub fn collect_consumes_the_iterator_and_creates_a_vector() -> (v2: Vec<i32>)
    ensures
        v2@ == seq![2i32, 3i32, 4i32],
{
    let v1 = one_two_three();
    let v2 = add_one_to_each(&v1);
    assert(v2@ =~= seq![2i32, 3i32, 4i32]);
    v2
}

/// A shoe of some size and style.
#[derive(Debug)]
pub struct Shoe {
    pub size: u32,
    pub style: String,
}

/// The shoes of the given size, in the order they came in.
pub fn shoes_in_size(shoes: Vec<Shoe>, shoe_size: u32) -> (r: Vec<Shoe>)
    ensures
        r@ == shoes@.filter(|s: Shoe| s.size == shoe_size),
{
    let ghost all = shoes@;
    let ghost wanted = |s: Shoe| s.size == shoe_size;
    let mut r: Vec<Shoe> = Vec::new();
    proof {
        reveal(Seq::filter);
        assert(all.subrange(0, 0) =~= Seq::<Shoe>::empty());
    }
    for shoe in iter: shoes
        invariant
            iter.seq() == all,
            wanted == (|s: Shoe| s.size == shoe_size),
            r@ == all.subrange(0, iter.index() as int).filter(wanted),
    {
        proof {
            reveal(Seq::filter);
            let longer = all.subrange(0, iter.index() + 1);
            assert(longer.drop_last() =~= all.subrange(0, iter.index() as int));
            assert(longer.last() == shoe);
        }
        if shoe.size == shoe_size {
            r.push(shoe);
        }
    }
    assert(all.subrange(0, all.len() as int) =~= all);
    r
}

/// Of a sneaker in size 10, a sandal in size 13 and a boot in size 10, the
/// shoes in size 10 are the sneaker and the boot.
pub fn closures_used_in_iterators_can_also_capture_the_environment() -> (r: Vec<Shoe>)
    ensures
        r@.len() == 2,
        r@[0].size == 10 && r@[0].style@ == "sneaker"@,
        r@[1].size == 10 && r@[1].style@ == "boot"@,
{
    let sneaker = Shoe { size: 10, style: String::from_str("sneaker") };
    let sandal = Shoe { size: 13, style: String::from_str("sandal") };
    let boot = Shoe { size: 10, style: String::from_str("boot") };
    let mut shoes: Vec<Shoe> = Vec::new();
    shoes.push(sneaker);
    shoes.push(sandal);
    shoes.push(boot);
    proof {
        let wanted = |s: Shoe| s.size == 10u32;
        let all = shoes@;
        let two = all.drop_last();
        let one = two.drop_last();
        assert(one.drop_last() =~= Seq::<Shoe>::empty());
        reveal_with_fuel(Seq::filter, 4);
        assert(one.filter(wanted) =~= seq![sneaker]);
        assert(two.filter(wanted) =~= seq![sneaker]);
        assert(all.filter(wanted) =~= seq![sneaker, boot]);
    }
    shoes_in_size(shoes, 10)
}

/// Runs the iterator examples in turn and returns what each one gives.
pub fn iterators() -> (r: (
    (Option<i32>, Option<i32>, Option<i32>, Option<i32>),
    i32,
    Vec<i32>,
    Vec<Shoe>,
))
    ensures
        r.0 == (Some(1i32), Some(2i32), Some(3i32), None::<i32>),
        r.1 == 6,
        r.2@ == seq![2i32, 3i32, 4i32],
        r.3@.len() == 2,
        r.3@[0].size == 10 && r.3@[0].style@ == "sneaker"@,
        r.3@[1].size == 10 && r.3@[1].style@ == "boot"@,
{
    let steps = iterator_demonstration();
    let total = the_sum_method_consumes_the_iterator();
    let collected = collect_consumes_the_iterator_and_creates_a_vector();
    let shoes = closures_used_in_iterators_can_also_capture_the_environment();
    (steps, total, collected, shoes)
}

/// An earlier program can be rewritten with iterators; there is nothing to
/// run here.
pub fn improving_our_io_project() {
}

/// Iterators cost no more than the loops they replace; there is nothing to
/// run here.
pub fn comparing_performance() {
}

} // verus!
