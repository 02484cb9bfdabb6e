//! Vectors, strings and hash maps.

use crate::custom_error::ErrorMessage;
use crate::text::{push_signed, signed_decimal};
use crate::whitespace::{
    is_whitespace, lemma_word_end, lemma_words_len, split_words, trim_end, trimmed_end, words,
    words_from,
};
use vstd::hash_map::StringHashMap;
use vstd::prelude::*;
use vstd::string::*;
use vstd::utf8::{
    encode_scalar, encode_utf8, encode_utf8_decode_utf8, encode_utf8_valid_utf8,
    is_char_boundary, is_char_boundary_iff_not_is_continuation_byte,
};

verus! {

/// The collections of the standard library are the subject of this module;
/// there is nothing to run.
pub fn all_collections() {
}

/// The line that names the first element of a list; an empty list has none.
pub fn first_element_line(v: &Vec<i32>) -> (r: Result<String, ErrorMessage>)
    ensures
        v@.len() == 0 ==> r is Err && r->Err_0.0@ == "Vector is empty"@,
        v@.len() > 0 ==> r is Ok && r->Ok_0@ == "The first element is "@ + signed_decimal(
            v@[0] as int,
        ),
{
    if v.len() == 0 {
        Err(ErrorMessage::new("Vector is empty"))
    } else {
        let mut line = String::from_str("The first element is ");
        push_signed(&mut line, v[0] as i64);
        Ok(line)
    }
}

/// The element at a position, or nothing where the list is too short.
pub fn element_at(v: &Vec<i32>, index: usize) -> (r: Option<i32>)
    ensures
        r == if index < v@.len() {
            Some(v@[index as int])
        } else {
            None
        },
{
    if index < v.len() {
        Some(v[index])
    } else {
        None
    }
}

/// Builds the list 1 to 5, appends 6, asks for an element that is not there
/// and names the first one.
pub fn vectors() -> (r: Result<String, ErrorMessage>)
    ensures
        r is Ok,
        r->Ok_0@ == "The first element is "@ + signed_decimal(1),
{
    let mut v: Vec<i32> = Vec::new();
    v.push(1);
    v.push(2);
    v.push(3);
    v.push(4);
    v.push(5);
    v.push(6);
    let does_not_exist = element_at(&v, 100);
    assert(does_not_exist is None);
    first_element_line(&v)
}

/// A list holds values of one type; an enum makes one type of several.
pub enum TwoTypes {
    I(i32),
    S(String),
}

/// A list of a number and a text.
pub fn vector_of_enums() -> (enum_vec: Vec<TwoTypes>)
    ensures
        enum_vec@.len() == 2,
        enum_vec@[0] == TwoTypes::I(0),
        enum_vec@[1] is S,
        enum_vec@[1]->S_0@ == "Hello"@,
{
    let mut enum_vec: Vec<TwoTypes> = Vec::new();
    enum_vec.push(TwoTypes::I(0));
    enum_vec.push(TwoTypes::S(String::from_str("Hello")));
    enum_vec
}

/// The bytes of the five characters of the text that is not all ASCII, as
/// UTF-8 writes them: two bytes for the first and the fourth, one for each
/// of the others.
proof fn lemma_scalars()
    ensures
        encode_scalar('\u{bf}' as u32) == seq![0xc2u8, 0xbfu8],
        encode_scalar('Q' as u32) == seq![0x51u8],
        encode_scalar('u' as u32) == seq![0x75u8],
        encode_scalar('\u{e9}' as u32) == seq![0xc3u8, 0xa9u8],
        encode_scalar('?' as u32) == seq![0x3fu8],
{
    assert(0xc0u8 | ((0xbfu32 >> 6) & 0x1f) as u8 == 0xc2u8) by (bit_vector);
    assert(0x80u8 | (0xbfu32 & 0x3f) as u8 == 0xbfu8) by (bit_vector);
    assert((0x51u32 & 0x7f) as u8 == 0x51u8) by (bit_vector);
    assert((0x75u32 & 0x7f) as u8 == 0x75u8) by (bit_vector);
    assert(0xc0u8 | ((0xe9u32 >> 6) & 0x1f) as u8 == 0xc3u8) by (bit_vector);
    assert(0x80u8 | (0xe9u32 & 0x3f) as u8 == 0xa9u8) by (bit_vector);
    assert((0x3fu32 & 0x7f) as u8 == 0x3fu8) by (bit_vector);
    assert('\u{bf}' as u32 == 0xbfu32);
    assert('Q' as u32 == 0x51u32);
    assert('u' as u32 == 0x75u32);
    assert('\u{e9}' as u32 == 0xe9u32);
    assert('?' as u32 == 0x3fu32);
}

/// The bytes of the whole text and of its middle part.
proof fn lemma_que_bytes()
    ensures
        encode_utf8("\u{bf}Qu\u{e9}?"@) == seq![
            0xc2u8,
            0xbfu8,
            0x51u8,
            0x75u8,
            0xc3u8,
            0xa9u8,
            0x3fu8,
        ],
        encode_utf8("Qu\u{e9}"@) == seq![0x51u8, 0x75u8, 0xc3u8, 0xa9u8],
{
    lemma_scalars();
    reveal_strlit("\u{bf}Qu\u{e9}?");
    reveal_strlit("Qu\u{e9}");
    let s5 = "\u{bf}Qu\u{e9}?"@;
    let s4 = s5.drop_first();
    let s3 = s4.drop_first();
    let s2 = s3.drop_first();
    let s1 = s2.drop_first();
    let s0 = s1.drop_first();
    assert(s0 =~= Seq::<char>::empty());
    assert(encode_utf8(s0) =~= Seq::<u8>::empty());
    assert(encode_utf8(s1) =~= seq![0x3fu8]);
    assert(encode_utf8(s2) =~= seq![0xc3u8, 0xa9u8, 0x3fu8]);
    assert(encode_utf8(s3) =~= seq![0x75u8, 0xc3u8, 0xa9u8, 0x3fu8]);
    assert(encode_utf8(s4) =~= seq![0x51u8, 0x75u8, 0xc3u8, 0xa9u8, 0x3fu8]);
    assert(encode_utf8(s5) =~= seq![0xc2u8, 0xbfu8, 0x51u8, 0x75u8, 0xc3u8, 0xa9u8, 0x3fu8]);
    let q3 = "Qu\u{e9}"@;
    let q2 = q3.drop_first();
    let q1 = q2.drop_first();
    let q0 = q1.drop_first();
    assert(q0 =~= Seq::<char>::empty());
    assert(encode_utf8(q0) =~= Seq::<u8>::empty());
    assert(encode_utf8(q1) =~= seq![0xc3u8, 0xa9u8]);
    assert(encode_utf8(q2) =~= seq![0x75u8, 0xc3u8, 0xa9u8]);
    assert(encode_utf8(q3) =~= seq![0x51u8, 0x75u8, 0xc3u8, 0xa9u8]);
}

/// Two texts with the same bytes are the same text.
proof fn lemma_same_bytes(a: Seq<char>, b: Seq<char>)
    requires
        encode_utf8(a) == encode_utf8(b),
    ensures
        a == b,
{
    encode_utf8_decode_utf8(a);
    encode_utf8_decode_utf8(b);
}

/// What the usual operations on strings give.
pub struct StringOperations {
    /// "Hello", grown by a comma, a space and "World".
    pub mut_string: String,
    /// The same followed by an exclamation mark.
    pub hello_world: String,
    /// Two words put together with a space between them.
    pub format_1: String,
    /// The second character of that.
    pub c: char,
    /// The third to sixth bytes of a text that is not all ASCII.
    pub que: String,
    /// The second to fourth characters of that text: the same part, found
    /// without counting bytes.
    pub safer_que: String,
}

/// Appends characters and text to a string, joins strings, and reads
/// characters by position rather than by byte offset.
pub fn typical_string_operations() -> (r: StringOperations)
    ensures
        r.mut_string@ == "Hello, World"@,
        r.hello_world@ == "Hello, World!"@,
        r.format_1@ == "foo bar"@,
        r.c == 'o',
        r.que@ == "Qu\u{e9}"@,
        r.safer_que@ == "Qu\u{e9}"@,
{
    proof {
        reveal_strlit("Hello");
        reveal_strlit("World");
        reveal_strlit("Hello, World");
        reveal_strlit("Hello, World!");
        reveal_strlit("!");
        reveal_strlit("foo");
        reveal_strlit("bar");
        reveal_strlit(" ");
        reveal_strlit("foo bar");
        reveal_strlit("\u{bf}Qu\u{e9}?");
        reveal_strlit("Qu\u{e9}");
    }
    let mut mut_string = String::from_str("Hello");
    mut_string.push(',');
    mut_string.push(' ');
    mut_string.append("World");
    assert(mut_string@ =~= "Hello, World"@);

    let hello_world = mut_string.clone().concat("!");
    assert(hello_world@ =~= "Hello, World!"@);

    let foo = "foo";
    let bar = "bar";
    let mut format_1 = String::from_str(foo);
    format_1.append(" ");
    format_1.append(bar);
    assert(format_1@ =~= "foo bar"@);

    let c = format_1.as_str().get_char(1);

    let utf_8 = String::from_str("\u{bf}Qu\u{e9}?");
    proof {
        lemma_que_bytes();
        let bytes = encode_utf8(utf_8@);
        encode_utf8_valid_utf8(utf_8@);
        is_char_boundary_iff_not_is_continuation_byte(bytes, 2);
    }
    let tail = utf_8.as_str().split_at(2).1;
    proof {
        let bytes = tail.spec_bytes();
        encode_utf8_valid_utf8(tail@);
        assert(bytes =~= seq![0x51u8, 0x75u8, 0xc3u8, 0xa9u8, 0x3fu8]);
        is_char_boundary_iff_not_is_continuation_byte(bytes, 4);
    }
    let que_slice = tail.split_at(4).0;
    proof {
        assert(que_slice.spec_bytes() =~= seq![0x51u8, 0x75u8, 0xc3u8, 0xa9u8]);
        lemma_same_bytes(que_slice@, "Qu\u{e9}"@);
    }
    let que = String::from_str(que_slice);
    let safer_que = String::from_str(utf_8.as_str().substring_char(1, 4));
    assert(safer_que@ =~= "Qu\u{e9}"@);

    StringOperations { mut_string, hello_world, format_1, c, que, safer_que }
}

/// The value under a key, after the given one was put there if the key had
/// none.
pub fn or_insert(map: &mut StringHashMap<i32>, key: &str, value: i32) -> (r: i32)
    ensures
        old(map)@.contains_key(key@) ==> final(map)@ == old(map)@ && r == old(map)@[key@],
        !old(map)@.contains_key(key@) ==> final(map)@ == old(map)@.insert(key@, value) && r
            == value,
{
    let found = match map.get(key) {
        Some(v) => Some(*v),
        None => None,
    };
    match found {
        Some(v) => v,
        None => {
            map.insert(String::from_str(key), value);
            value
        },
    }
}

/// The count of a word: what stands under it, or 0.
pub open spec fn count_of(m: Map<Seq<char>, i32>, word: Seq<char>) -> int {
    if m.contains_key(word) {
        m[word] as int
    } else {
        0
    }
}

/// The counts after each of the words, in turn, was counted once more.
pub open spec fn tallied(m: Map<Seq<char>, i32>, ws: Seq<Seq<char>>) -> Map<Seq<char>, i32>
    decreases ws.len(),
{
    if ws.len() == 0 {
        m
    } else {
        let before = tallied(m, ws.drop_last());
        before.insert(ws.last(), (count_of(before, ws.last()) + 1) as i32)
    }
}

/// Whether no count can pass `bound` while the words are counted.
pub open spec fn counts_below(m: Map<Seq<char>, i32>, bound: int) -> bool {
    forall|k: Seq<char>| m.contains_key(k) ==> #[trigger] m[k] <= bound
}

/// Counting one more word raises no count by more than one.
pub proof fn lemma_tallied_bound(m: Map<Seq<char>, i32>, ws: Seq<Seq<char>>, bound: int)
    requires
        0 <= bound,
        counts_below(m, bound),
        bound + ws.len() <= i32::MAX,
    ensures
        counts_below(tallied(m, ws), bound + ws.len()),
    decreases ws.len(),
{
    if ws.len() > 0 {
        lemma_tallied_bound(m, ws.drop_last(), bound);
        let before = tallied(m, ws.drop_last());
        let after = tallied(m, ws);
        assert forall|k: Seq<char>| after.contains_key(k) implies #[trigger] after[k] <= bound
            + ws.len() by {
            if k != ws.last() {
                assert(before.contains_key(k));
                assert(after[k] == before[k]);
            }
        }
    }
}

/// Counts each word once, looking the word up and putting 0 there if it is
/// new before adding one.
pub fn tally_by_entry(map: &mut StringHashMap<i32>, ws: &Vec<String>)
    requires
        ws@.len() <= i32::MAX,
        counts_below(old(map)@, i32::MAX - ws@.len()),
    ensures
        final(map)@ == tallied(old(map)@, ws@.map_values(|w: String| w@)),
{
    let ghost all = ws@.map_values(|w: String| w@);
    let ghost bound = i32::MAX - ws@.len();
    let mut i: usize = 0;
    while i < ws.len()
        invariant
            i <= ws@.len(),
            all == ws@.map_values(|w: String| w@),
            0 <= bound == i32::MAX - ws@.len(),
            counts_below(old(map)@, bound),
            map@ == tallied(old(map)@, all.subrange(0, i as int)),
        decreases ws@.len() - i,
    {
        proof {
            lemma_tallied_bound(old(map)@, all.subrange(0, i as int), bound);
            assert(all.subrange(0, i + 1).drop_last() =~= all.subrange(0, i as int));
            assert(all.subrange(0, i + 1).last() == ws@[i as int]@);
        }
        let count = or_insert(map, ws[i].as_str(), 0);
        map.insert(ws[i].clone(), count + 1);
        assert(map@ =~= tallied(old(map)@, all.subrange(0, i + 1)));
        i = i + 1;
    }
    assert(all.subrange(0, i as int) =~= all);
}

/// Counts each word once, reading the count so far, or 0 for a new word, and
/// writing back one more.
pub fn tally_by_get(map: &mut StringHashMap<i32>, ws: &Vec<String>)
    requires
        ws@.len() <= i32::MAX,
        counts_below(old(map)@, i32::MAX - ws@.len()),
    ensures
        final(map)@ == tallied(old(map)@, ws@.map_values(|w: String| w@)),
{
    let ghost all = ws@.map_values(|w: String| w@);
    let ghost bound = i32::MAX - ws@.len();
    let mut i: usize = 0;
    while i < ws.len()
        invariant
            i <= ws@.len(),
            all == ws@.map_values(|w: String| w@),
            0 <= bound == i32::MAX - ws@.len(),
            counts_below(old(map)@, bound),
            map@ == tallied(old(map)@, all.subrange(0, i as int)),
        decreases ws@.len() - i,
    {
        proof {
            lemma_tallied_bound(old(map)@, all.subrange(0, i as int), bound);
            assert(all.subrange(0, i + 1).drop_last() =~= all.subrange(0, i as int));
            assert(all.subrange(0, i + 1).last() == ws@[i as int]@);
        }
        let count = match map.get(ws[i].as_str()) {
            Some(v) => *v,
            None => 0,
        };
        map.insert(ws[i].clone(), count + 1);
        assert(map@ =~= tallied(old(map)@, all.subrange(0, i + 1)));
        i = i + 1;
    }
    assert(all.subrange(0, i as int) =~= all);
}

/// The text whose words are counted.
pub open spec fn counted_text() -> Seq<char> {
    "hello world wonderful world"@
}

/// The words of the counted text.
proof fn lemma_counted_words()
    ensures
        words(counted_text()) == seq!["hello"@, "world"@, "wonderful"@, "world"@],
{
    reveal_strlit("hello world wonderful world");
    reveal_strlit("hello");
    reveal_strlit("world");
    reveal_strlit("wonderful");
    let s = counted_text();
    assert(s.len() == 27);
    assert(is_whitespace(s[5]) && is_whitespace(s[11]) && is_whitespace(s[21]));
    lemma_word_end(s, 22, 27);
    assert(words_from(s, 27) =~= Seq::<Seq<char>>::empty());
    assert(s.subrange(22, 27) =~= "world"@);
    assert(words_from(s, 22) =~= seq!["world"@]);
    assert(words_from(s, 21) == words_from(s, 22));
    lemma_word_end(s, 12, 21);
    assert(s.subrange(12, 21) =~= "wonderful"@);
    assert(words_from(s, 12) =~= seq!["wonderful"@, "world"@]);
    assert(words_from(s, 11) == words_from(s, 12));
    lemma_word_end(s, 6, 11);
    assert(s.subrange(6, 11) =~= "world"@);
    assert(words_from(s, 6) =~= seq!["world"@, "wonderful"@, "world"@]);
    assert(words_from(s, 5) == words_from(s, 6));
    lemma_word_end(s, 0, 5);
    assert(s.subrange(0, 5) =~= "hello"@);
    assert(words_from(s, 0) =~= seq!["hello"@, "world"@, "wonderful"@, "world"@]);
}

/// Counted twice over, "hello" and "wonderful" stand at 2 and "world" at 4.
proof fn lemma_counts()
    ensures
        tallied(
            tallied(Map::<Seq<char>, i32>::empty(), words(counted_text())),
            words(counted_text()),
        ) == Map::<Seq<char>, i32>::empty().insert("hello"@, 2).insert("world"@, 4).insert(
            "wonderful"@,
            2,
        ),
{
    lemma_counted_words();
    reveal_strlit("hello");
    reveal_strlit("world");
    reveal_strlit("wonderful");
    let h = "hello"@;
    let w = "world"@;
    let o = "wonderful"@;
    assert(h[0] != w[0]);
    assert(h.len() != o.len());
    assert(w.len() != o.len());
    let ws = seq![h, w, o, w];
    let e = Map::<Seq<char>, i32>::empty();
    let w3 = ws.drop_last();
    let w2 = w3.drop_last();
    let w1 = w2.drop_last();
    let w0 = w1.drop_last();
    assert(w3 =~= seq![h, w, o]);
    assert(w2 =~= seq![h, w]);
    assert(w1 =~= seq![h]);
    assert(w0 =~= Seq::<Seq<char>>::empty());
    reveal_with_fuel(tallied, 5);
    let a1 = tallied(e, w1);
    assert(a1 =~= e.insert(h, 1));
    let a2 = tallied(e, w2);
    assert(a2 =~= e.insert(h, 1).insert(w, 1));
    let a3 = tallied(e, w3);
    assert(a3 =~= e.insert(h, 1).insert(w, 1).insert(o, 1));
    let a4 = tallied(e, ws);
    assert(a4 =~= e.insert(h, 1).insert(w, 2).insert(o, 1));
    let b1 = tallied(a4, w1);
    assert(b1 =~= e.insert(h, 2).insert(w, 2).insert(o, 1));
    let b2 = tallied(a4, w2);
    assert(b2 =~= e.insert(h, 2).insert(w, 3).insert(o, 1));
    let b3 = tallied(a4, w3);
    assert(b3 =~= e.insert(h, 2).insert(w, 3).insert(o, 2));
    let b4 = tallied(a4, ws);
    assert(b4 =~= e.insert(h, 2).insert(w, 4).insert(o, 2));
}

/// What the operations on hash maps give.
pub struct HashMaps {
    /// The numbers one to five under their names.
    pub numbers: StringHashMap<i32>,
    /// What was found under "Five" after 5 was put there.
    pub five: i32,
    /// What was found under "Five" after another number was offered.
    pub still_five: i32,
    /// How often each word of the text was counted, each occurrence twice.
    pub counts: StringHashMap<i32>,
}

/// Fills a map one pair at a time and from a list of pairs, inserts only
/// where a key is new, and counts the words of a text in two ways, one after
/// the other, so that each occurrence counts twice.
pub fn hash_maps() -> (r: HashMaps)
    ensures
        r.numbers@ == Map::<Seq<char>, i32>::empty().insert("One"@, 1).insert("Two"@, 2).insert(
            "Three"@,
            3,
        ).insert("Four"@, 4).insert("Five"@, 5),
        r.five == 5,
        r.still_five == 5,
        r.counts@ == Map::<Seq<char>, i32>::empty().insert("hello"@, 2).insert("world"@, 4).insert(
            "wonderful"@,
            2,
        ),
{
    let mut hash_map: StringHashMap<i32> = StringHashMap::new();
    hash_map.insert(String::from_str("One"), 1);
    hash_map.insert(String::from_str("Two"), 2);
    let mut multiple_items: StringHashMap<i32> = StringHashMap::new();
    multiple_items.insert(String::from_str("Three"), 3);
    multiple_items.insert(String::from_str("Four"), 4);
    hash_map.union_prefer_right(multiple_items);
    proof {
        reveal_strlit("One");
        reveal_strlit("Two");
        reveal_strlit("Three");
        reveal_strlit("Four");
        reveal_strlit("Five");
        assert(hash_map@ =~= Map::<Seq<char>, i32>::empty().insert("One"@, 1).insert(
            "Two"@,
            2,
        ).insert("Three"@, 3).insert("Four"@, 4));
        assert(!("Five"@ =~= "One"@));
        assert(!("Five"@ =~= "Two"@));
        assert(!("Five"@ =~= "Three"@));
        assert("Five"@[1] != "Four"@[1]);
    }
    let five = or_insert(&mut hash_map, "Five", 5);
    let still_five = or_insert(&mut hash_map, "Five", 98765);

    let text = "hello world wonderful world";
    let found = split_words(text);
    let mut map: StringHashMap<i32> = StringHashMap::new();
    proof {
        reveal_strlit("hello world wonderful world");
        lemma_words_len(text@, 0);
        assert(found@.map_values(|w: String| w@) =~= words(text@));
        lemma_tallied_bound(Map::<Seq<char>, i32>::empty(), words(text@), 0);
        lemma_counts();
    }
    tally_by_entry(&mut map, &found);
    tally_by_get(&mut map, &found);
    HashMaps { numbers: hash_map, five, still_five, counts: map }
}

/// A string that the caller comes to own.
pub fn returns_an_owned() -> (s: String)
    ensures
        s@ == "blah"@,
{
    String::from_str("blah")
}

/// A part of the text it is given: the text without the white space at its
/// end. What comes back borrows from what went in.
pub fn takes_and_returns_ref(x: &str) -> (r: &str)
    ensures
        r@ == trimmed_end(x@),
{
    trim_end(x)
}

/// Borrowing from a temporary works as long as the borrow ends with the
/// statement. Returns the length of the slice taken within it.
pub fn this_works() -> (n: usize)
    ensures
        n == trimmed_end("blah"@).len(),
{
    let n = takes_and_returns_ref(returns_an_owned().as_str()).unicode_len();
    n
}

/// Giving the owned string a name keeps it alive for as long as the slice
/// is used.
pub fn this_fixes_the_problem() -> (line: String)
    ensures
        line@ == trimmed_end("blah"@),
{
    let s = returns_an_owned();
    let slice = takes_and_returns_ref(s.as_str());
    String::from_str(slice)
}

} // verus!
