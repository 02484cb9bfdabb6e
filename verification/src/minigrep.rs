//! A small search tool: reads its arguments, and finds the lines of a text
//! that contain a query.

use vstd::prelude::*;
use vstd::string::*;

verus! {

/// The query and the file to search, taken from the arguments by position.
/// The first argument is the program's name.
pub fn parse_config(args: &[String]) -> (r: (&str, &str))
    requires
        args@.len() >= 3,
    ensures
        r.0@ == args@[1]@,
        r.1@ == args@[2]@,
{
    let query = &args[1];
    let file_path = &args[2];
    (query.as_str(), file_path.as_str())
}

/// What to search for, and where.
pub struct Config {
    pub query: String,
    pub file_path: String,
}

impl Config {
    /// The configuration from arguments that are known to be there.
    pub fn new(args: &[String]) -> (config: Config)
        requires
            args@.len() >= 3,
        ensures
            config.query == args@[1],
            config.file_path == args@[2],
    {
        let query = args[1].clone();
        let file_path = args[2].clone();
        Config { query, file_path }
    }

    /// The configuration from the arguments, or an error where there are
    /// fewer than three.
    pub fn build(args: &[String]) -> (r: Result<Config, &'static str>)
        ensures
            args@.len() < 3 ==> r is Err && r->Err_0@ == "not enough arguments"@,
            args@.len() >= 3 ==> r is Ok && r->Ok_0.query == args@[1] && r->Ok_0.file_path
                == args@[2],
    {
        if args.len() < 3 {
            return Err("not enough arguments");
        }
        let query = args[1].clone();
        let file_path = args[2].clone();
        Ok(Config { query, file_path })
    }
}

/// Where the line that starts at `i` ends: the position of the next line
/// feed, or the end of the text.
pub open spec fn line_end(s: Seq<char>, i: int) -> int
    decreases s.len() - i,
{
    if 0 <= i < s.len() && s[i] != '\n' {
        line_end(s, i + 1)
    } else {
        i
    }
}

/// A line without the carriage return before its line feed.
pub open spec fn without_return(line: Seq<char>) -> Seq<char> {
    if line.len() > 0 && line.last() == '\r' {
        line.drop_last()
    } else {
        line
    }
}

/// The lines of the text from position `i` on. A line ends at a line feed,
/// or at a carriage return and a line feed; neither belongs to the line.
/// What follows the last line feed is a line too, unless it is empty.
pub open spec fn lines_from(s: Seq<char>, i: int) -> Seq<Seq<char>>
    decreases s.len() - i,
{
    if i < 0 || i >= s.len() {
        Seq::empty()
    } else {
        let j = line_end(s, i);
        if i <= j < s.len() {
            seq![without_return(s.subrange(i, j))] + lines_from(s, j + 1)
        } else {
            seq![s.subrange(i, s.len() as int)]
        }
    }
}

/// The lines of a text.
pub open spec fn lines(s: Seq<char>) -> Seq<Seq<char>> {
    lines_from(s, 0)
}

/// Whether `query` stands in `line` at position `k`.
pub open spec fn occurs_at(line: Seq<char>, query: Seq<char>, k: int) -> bool {
    0 <= k && k + query.len() <= line.len() && line.subrange(k, k + query.len()) == query
}

/// Whether `query` stands somewhere in `line`.
pub open spec fn contains(line: Seq<char>, query: Seq<char>) -> bool {
    exists|k: int| occurs_at(line, query, k)
}

/// The lines of `contents` that contain `query`, in order.
pub open spec fn matching_lines(query: Seq<char>, contents: Seq<char>) -> Seq<Seq<char>> {
    lines(contents).filter(|line: Seq<char>| contains(line, query))
}

/// Characters other than a line feed from `i` up to `j`, where the text
/// ends or a line feed stands, make the line end at `j`.
pub proof fn lemma_line_end(s: Seq<char>, i: int, j: int)
    requires
        0 <= i <= j <= s.len(),
        forall|k: int| i <= k < j ==> #[trigger] s[k] != '\n',
        j < s.len() ==> s[j] == '\n',
    ensures
        line_end(s, i) == j,
    decreases j - i,
{
    if i < j {
        lemma_line_end(s, i + 1, j);
    }
}

/// Every line that the search gives contains the query and is a line of
/// the text.
pub proof fn lemma_matches_are_lines_with_the_query(
    query: Seq<char>,
    contents: Seq<char>,
    i: int,
)
    requires
        0 <= i < matching_lines(query, contents).len(),
    ensures
        contains(matching_lines(query, contents)[i], query),
        lines(contents).contains(matching_lines(query, contents)[i]),
{
    let has = |line: Seq<char>| contains(line, query);
    lines(contents).lemma_filter_pred(has, i);
    let found = matching_lines(query, contents)[i];
    assert(matching_lines(query, contents).contains(found));
    lines(contents).lemma_filter_contains_rev(has, found);
}

/// The search leaves no line out: every line of the text that contains the
/// query is among the results.
pub proof fn lemma_no_line_is_missed(query: Seq<char>, contents: Seq<char>, i: int)
    requires
        0 <= i < lines(contents).len(),
        contains(lines(contents)[i], query),
    ensures
        matching_lines(query, contents).contains(lines(contents)[i]),
{
    let has = |line: Seq<char>| contains(line, query);
    lines(contents).lemma_filter_contains(has, i);
}

/// The characters of a text, one by one.
pub fn chars_of(s: &str) -> (v: Vec<char>)
    ensures
        v@ == s@,
{
    let n = s.unicode_len();
    let mut v: Vec<char> = Vec::new();
    let mut i: usize = 0;
    while i < n
        invariant
            i <= n,
            n == s@.len(),
            v@ == s@.subrange(0, i as int),
        decreases n - i,
    {
        v.push(s.get_char(i));
        assert(v@ =~= s@.subrange(0, i + 1));
        i = i + 1;
    }
    assert(s@.subrange(0, n as int) =~= s@);
    v
}

/// Whether `query` stands in `text[from..to]` at position `k` of that part.
fn occurs(text: &Vec<char>, from: usize, to: usize, query: &Vec<char>, k: usize) -> (r: bool)
    requires
        from <= to <= text@.len(),
        from + k + query@.len() <= to,
    ensures
        r == occurs_at(text@.subrange(from as int, to as int), query@, k as int),
{
    let ghost line = text@.subrange(from as int, to as int);
    let mut i: usize = 0;
    while i < query.len()
        invariant
            i <= query@.len(),
            from <= to <= text@.len(),
            from + k + query@.len() <= to,
            line == text@.subrange(from as int, to as int),
            forall|j: int| 0 <= j < i ==> line[k + j] == query@[j],
        decreases query@.len() - i,
    {
        if text[from + k + i] != query[i] {
            assert(line.subrange(k as int, k + query@.len())[i as int] != query@[i as int]);
            return false;
        }
        i = i + 1;
    }
    assert(line.subrange(k as int, k + query@.len()) =~= query@);
    true
}

/// Whether `query` stands somewhere in `text[from..to]`.
pub fn part_contains(text: &Vec<char>, from: usize, to: usize, query: &Vec<char>) -> (r: bool)
    requires
        from <= to <= text@.len(),
    ensures
        r == contains(text@.subrange(from as int, to as int), query@),
{
    let ghost line = text@.subrange(from as int, to as int);
    if query.len() > to - from {
        assert forall|k: int| !occurs_at(line, query@, k) by {}
        return false;
    }
    let last: usize = to - from - query.len();
    let mut k: usize = 0;
    loop
        invariant
            k <= last,
            from <= to <= text@.len(),
            last == to - from - query@.len(),
            line == text@.subrange(from as int, to as int),
            forall|j: int| 0 <= j < k ==> !occurs_at(line, query@, j),
        ensures
            forall|j: int| 0 <= j <= last ==> !occurs_at(line, query@, j),
        decreases last - k,
    {
        if occurs(text, from, to, query, k) {
            return true;
        }
        if k == last {
            break ;
        }
        k = k + 1;
    }
    assert forall|j: int| !occurs_at(line, query@, j) by {
        if 0 <= j && j + query@.len() <= line.len() {
            assert(j <= last);
        }
    }
    false
}

/// The lines of `contents` that contain `query`, in the order in which
/// they stand in the text. Each is a part of `contents`, not a copy.
pub fn search<'a>(query: &str, contents: &'a str) -> (results: Vec<&'a str>)
    ensures
        results@.map_values(|line: &str| line@) == matching_lines(query@, contents@),
{
    let text = chars_of(contents);
    let wanted = chars_of(query);
    let n = text.len();
    let ghost has = |line: Seq<char>| contains(line, query@);
    let ghost mut done: Seq<Seq<char>> = Seq::empty();
    let mut results: Vec<&'a str> = Vec::new();
    let mut i: usize = 0;
    proof {
        reveal(Seq::filter);
        assert(results@.map_values(|line: &str| line@) =~= done.filter(has));
    }
    while i < n
        invariant
            i <= n,
            n == text@.len(),
            text@ == contents@,
            wanted@ == query@,
            has == (|line: Seq<char>| contains(line, query@)),
            lines(contents@) == done + lines_from(contents@, i as int),
            results@.map_values(|line: &str| line@) == done.filter(has),
        decreases n - i,
    {
        let mut j: usize = i;
        while j < n && text[j] != '\n'
            invariant
                i <= j <= n,
                n == text@.len(),
                forall|k: int| i <= k < j ==> #[trigger] text@[k] != '\n',
            decreases n - j,
        {
            j = j + 1;
        }
        proof {
            lemma_line_end(text@, i as int, j as int);
        }
        let end: usize = if j < n && j > i && text[j - 1] == '\r' {
            j - 1
        } else {
            j
        };
        let ghost line = text@.subrange(i as int, end as int);
        let next: usize = if j < n {
            j + 1
        } else {
            n
        };
        proof {
            if j < n {
                assert(without_return(text@.subrange(i as int, j as int)) =~= line);
                assert(lines_from(text@, i as int) == seq![line] + lines_from(text@, j + 1));
            } else {
                assert(lines_from(text@, n as int) =~= Seq::<Seq<char>>::empty());
                assert(lines_from(text@, i as int) =~= seq![line] + lines_from(text@, n as int));
            }
            assert(done + (seq![line] + lines_from(text@, next as int)) =~= done.push(line)
                + lines_from(text@, next as int));
            reveal(Seq::filter);
            assert(done.push(line).drop_last() =~= done);
        }
        let ghost before = results@.map_values(|line: &str| line@);
        if part_contains(&text, i, end, &wanted) {
            results.push(contents.substring_char(i, end));
            assert(results@.map_values(|line: &str| line@) =~= before.push(line));
        }
        proof {
            done = done.push(line);
        }
        i = next;
    }
    proof {
        assert(lines_from(contents@, n as int) =~= Seq::<Seq<char>>::empty());
        assert(done + Seq::<Seq<char>>::empty() =~= done);
    }
    results
}

/// What the program prints for a text that it has read: the lines that
/// contain the query.
pub fn run(config: &Config, contents: &str) -> (printed: Vec<String>)
    ensures
        printed@.map_values(|line: String| line@) == matching_lines(config.query@, contents@),
{
    let found = search(config.query.as_str(), contents);
    let mut printed: Vec<String> = Vec::new();
    let mut i: usize = 0;
    while i < found.len()
        invariant
            i <= found@.len(),
            printed@.len() == i,
            forall|k: int| 0 <= k < i ==> (#[trigger] printed@[k])@ == found@[k]@,
        decreases found@.len() - i,
    {
        printed.push(String::from_str(found[i]));
        i = i + 1;
    }
    assert(printed@.map_values(|line: String| line@) =~= found@.map_values(|line: &str| line@));
    printed
}

} // verus!
