use vstd::prelude::*;
use vstd::string::StrSliceExecFns;

verus! {

/// Whitespace as the Unicode `White_Space` property defines it; this is the
/// set of characters that trimming removes from the ends of a string.
pub open spec fn is_ws_char(c: char) -> bool {
    let n = c as u32;
    ||| (0x09 <= n && n <= 0x0D)
    ||| n == 0x20
    ||| n == 0x85
    ||| n == 0xA0
    ||| n == 0x1680
    ||| (0x2000 <= n && n <= 0x200A)
    ||| n == 0x2028
    ||| n == 0x2029
    ||| n == 0x202F
    ||| n == 0x205F
    ||| n == 0x3000
}

fn is_ws(c: char) -> (b: bool)
    ensures
        b == is_ws_char(c),
{
    let n = c as u32;
    (0x09 <= n && n <= 0x0D) || n == 0x20 || n == 0x85 || n == 0xA0 || n == 0x1680 || (0x2000 <= n
        && n <= 0x200A) || n == 0x2028 || n == 0x2029 || n == 0x202F || n == 0x205F || n == 0x3000
}

/// The string without its leading whitespace.
pub open spec fn spec_trim_start(s: Seq<char>) -> Seq<char>
    decreases s.len(),
{
    if s.len() > 0 && is_ws_char(s[0]) {
        spec_trim_start(s.drop_first())
    } else {
        s
    }
}

/// The string without its trailing whitespace.
pub open spec fn spec_trim_end(s: Seq<char>) -> Seq<char>
    decreases s.len(),
{
    if s.len() > 0 && is_ws_char(s.last()) {
        spec_trim_end(s.drop_last())
    } else {
        s
    }
}

/// The string without leading and trailing whitespace.
pub open spec fn spec_trim(s: Seq<char>) -> Seq<char> {
    spec_trim_end(spec_trim_start(s))
}

pub fn trim_start_str<'a>(s: &'a str) -> (r: &'a str)
    ensures
        r@ == spec_trim_start(s@),
        r@.len() <= s@.len(),
{
    let mut cur: &'a str = s;
    let mut len: usize = cur.unicode_len();
    while len > 0 && is_ws(cur.get_char(0))
        invariant
            len == cur@.len(),
            spec_trim_start(cur@) == spec_trim_start(s@),
            cur@.len() <= s@.len(),
        decreases len,
    {
        let next = cur.substring_char(1, len);
        proof {
            assert(next@ =~= cur@.drop_first());
        }
        cur = next;
        len = len - 1;
    }
    cur
}

pub fn trim_end_str<'a>(s: &'a str) -> (r: &'a str)
    ensures
        r@ == spec_trim_end(s@),
        r@.len() <= s@.len(),
{
    let mut cur: &'a str = s;
    let mut len: usize = cur.unicode_len();
    while len > 0 && is_ws(cur.get_char(len - 1))
        invariant
            len == cur@.len(),
            spec_trim_end(cur@) == spec_trim_end(s@),
            cur@.len() <= s@.len(),
        decreases len,
    {
        let next = cur.substring_char(0, len - 1);
        proof {
            assert(next@ =~= cur@.drop_last());
        }
        cur = next;
        len = len - 1;
    }
    cur
}

pub fn trim_str<'a>(s: &'a str) -> (r: &'a str)
    ensures
        r@ == spec_trim(s@),
{
    trim_end_str(trim_start_str(s))
}

pub open spec fn spec_starts_with(s: Seq<char>, p: Seq<char>) -> bool {
    p.is_prefix_of(s)
}

pub open spec fn spec_ends_with(s: Seq<char>, p: Seq<char>) -> bool {
    p.is_suffix_of(s)
}

pub fn starts_with_str(s: &str, p: &str) -> (b: bool)
    ensures
        b == spec_starts_with(s@, p@),
{
    let sl = s.unicode_len();
    let pl = p.unicode_len();
    if pl > sl {
        return false;
    }
    let mut i: usize = 0;
    while i < pl
        invariant
            sl == s@.len(),
            pl == p@.len(),
            pl <= sl,
            i <= pl,
            forall|j: int| 0 <= j < i ==> s@[j] == p@[j],
        decreases pl - i,
    {
        if s.get_char(i) != p.get_char(i) {
            return false;
        }
        i = i + 1;
    }
    proof {
        assert(p@ =~= s@.subrange(0, p@.len() as int));
    }
    true
}

pub fn ends_with_str(s: &str, p: &str) -> (b: bool)
    ensures
        b == spec_ends_with(s@, p@),
{
    let sl = s.unicode_len();
    let pl = p.unicode_len();
    if pl > sl {
        return false;
    }
    let off = sl - pl;
    let mut i: usize = 0;
    while i < pl
        invariant
            sl == s@.len(),
            pl == p@.len(),
            pl <= sl,
            off == sl - pl,
            i <= pl,
            forall|j: int| 0 <= j < i ==> s@[off + j] == p@[j],
        decreases pl - i,
    {
        if s.get_char(off + i) != p.get_char(i) {
            return false;
        }
        i = i + 1;
    }
    proof {
        assert(p@ =~= s@.subrange(s@.len() - p@.len(), s@.len() as int));
    }
    true
}

/// The opening fence that tags its payload as JSON.
pub open spec fn fence_json() -> Seq<char> {
    "```json"@
}

/// A bare three-backtick fence.
pub open spec fn fence_bare() -> Seq<char> {
    "```"@
}

/// One leading fence marker removed, when present; the tagged form wins over
/// the bare one.
pub open spec fn spec_strip_lead_fence(s: Seq<char>) -> Seq<char> {
    if spec_starts_with(s, fence_json()) {
        s.skip(fence_json().len() as int)
    } else if spec_starts_with(s, fence_bare()) {
        s.skip(fence_bare().len() as int)
    } else {
        s
    }
}

/// One trailing fence marker removed, when present.
pub open spec fn spec_strip_trail_fence(s: Seq<char>) -> Seq<char> {
    if spec_ends_with(s, fence_bare()) {
        s.take(s.len() - fence_bare().len())
    } else {
        s
    }
}

/// The cleaning applied to a model reply before it is read as JSON: trim,
/// strip one leading fence marker, strip one trailing fence marker, trim again.
pub open spec fn spec_clean_fences(s: Seq<char>) -> Seq<char> {
    spec_trim(spec_strip_trail_fence(spec_strip_lead_fence(spec_trim(s))))
}

pub fn clean_fences(s: &str) -> (r: String)
    ensures
        r@ == spec_clean_fences(s@),
{
    let t1 = trim_str(s);
    let l1 = t1.unicode_len();
    let t2 = if starts_with_str(t1, "```json") {
        let n = "```json".unicode_len();
        t1.substring_char(n, l1)
    } else if starts_with_str(t1, "```") {
        let n = "```".unicode_len();
        t1.substring_char(n, l1)
    } else {
        t1
    };
    proof {
        assert(t2@ =~= spec_strip_lead_fence(t1@));
    }
    let l2 = t2.unicode_len();
    let t3 = if ends_with_str(t2, "```") {
        let n = "```".unicode_len();
        t2.substring_char(0, l2 - n)
    } else {
        t2
    };
    proof {
        assert(t3@ =~= spec_strip_trail_fence(t2@));
    }
    String::from_str(trim_str(t3))
}

/// The character for one decimal digit.
pub open spec fn spec_digit_char(d: int) -> char {
    if d == 0 {
        '0'
    } else if d == 1 {
        '1'
    } else if d == 2 {
        '2'
    } else if d == 3 {
        '3'
    } else if d == 4 {
        '4'
    } else if d == 5 {
        '5'
    } else if d == 6 {
        '6'
    } else if d == 7 {
        '7'
    } else if d == 8 {
        '8'
    } else {
        '9'
    }
}

/// The decimal digits of a number, most significant first, with no sign and
/// no leading zero except for the number zero itself.
pub open spec fn spec_udigits(n: nat) -> Seq<char>
    decreases n,
{
    if n < 10 {
        seq![spec_digit_char(n as int)]
    } else {
        spec_udigits(n / 10) + seq![spec_digit_char((n % 10) as int)]
    }
}

fn digit_str(d: u16) -> (r: &'static str)
    requires
        d < 10,
    ensures
        r@ == seq![spec_digit_char(d as int)],
{
    let r = if d == 0 {
        "0"
    } else if d == 1 {
        "1"
    } else if d == 2 {
        "2"
    } else if d == 3 {
        "3"
    } else if d == 4 {
        "4"
    } else if d == 5 {
        "5"
    } else if d == 6 {
        "6"
    } else if d == 7 {
        "7"
    } else if d == 8 {
        "8"
    } else {
        "9"
    };
    proof {
        reveal_strlit("0");
        reveal_strlit("1");
        reveal_strlit("2");
        reveal_strlit("3");
        reveal_strlit("4");
        reveal_strlit("5");
        reveal_strlit("6");
        reveal_strlit("7");
        reveal_strlit("8");
        reveal_strlit("9");
        assert(r@ =~= seq![spec_digit_char(d as int)]);
    }
    r
}

pub fn u16_to_string(n: u16) -> (r: String)
    ensures
        r@ == spec_udigits(n as nat),
    decreases n,
{
    if n < 10 {
        String::from_str(digit_str(n))
    } else {
        let mut s = u16_to_string(n / 10);
        s.append(digit_str(n % 10));
        s
    }
}

pub proof fn lemma_trim_start_len(s: Seq<char>)
    ensures
        spec_trim_start(s).len() <= s.len(),
    decreases s.len(),
{
    if s.len() > 0 && is_ws_char(s[0]) {
        lemma_trim_start_len(s.drop_first());
    }
}

pub proof fn lemma_trim_end_len(s: Seq<char>)
    ensures
        spec_trim_end(s).len() <= s.len(),
    decreases s.len(),
{
    if s.len() > 0 && is_ws_char(s.last()) {
        lemma_trim_end_len(s.drop_last());
    }
}

/// A string that trimming leaves unchanged is left unchanged by each half of
/// the trim as well; in particular, when it is non-empty, neither its first
/// nor its last character is whitespace.
pub proof fn lemma_trim_fixpoint_parts(s: Seq<char>)
    requires
        spec_trim(s) == s,
    ensures
        spec_trim_start(s) == s,
        spec_trim_end(s) == s,
        s.len() > 0 ==> !is_ws_char(s[0]),
        s.len() > 0 ==> !is_ws_char(s.last()),
{
    lemma_trim_start_len(s);
    lemma_trim_end_len(spec_trim_start(s));
    if s.len() > 0 && is_ws_char(s[0]) {
        lemma_trim_start_len(s.drop_first());
        lemma_trim_end_len(spec_trim_start(s.drop_first()));
        assert(false);
    }
    assert(spec_trim_start(s) == s);
    if s.len() > 0 && is_ws_char(s.last()) {
        lemma_trim_end_len(s.drop_last());
        assert(false);
    }
}

proof fn lemma_trim_start_no_ws(s: Seq<char>)
    ensures
        spec_trim_start(s).len() > 0 ==> !is_ws_char(spec_trim_start(s)[0]),
    decreases s.len(),
{
    if s.len() > 0 && is_ws_char(s[0]) {
        lemma_trim_start_no_ws(s.drop_first());
    }
}

proof fn lemma_trim_end_no_ws(s: Seq<char>)
    ensures
        spec_trim_end(s).len() > 0 ==> !is_ws_char(spec_trim_end(s).last()),
    decreases s.len(),
{
    if s.len() > 0 && is_ws_char(s.last()) {
        lemma_trim_end_no_ws(s.drop_last());
    }
}

proof fn lemma_trim_end_prefix(s: Seq<char>)
    ensures
        spec_trim_end(s) == s.take(spec_trim_end(s).len() as int),
    decreases s.len(),
{
    lemma_trim_end_len(s);
    if s.len() > 0 && is_ws_char(s.last()) {
        lemma_trim_end_prefix(s.drop_last());
        lemma_trim_end_len(s.drop_last());
        assert(s.drop_last().take(spec_trim_end(s).len() as int) =~= s.take(
            spec_trim_end(s).len() as int,
        ));
    } else {
        assert(s.take(s.len() as int) =~= s);
    }
}

/// Trimming is idempotent: a trimmed string trims to itself.
pub proof fn lemma_trim_idem(s: Seq<char>)
    ensures
        spec_trim(spec_trim(s)) == spec_trim(s),
{
    let u = spec_trim_start(s);
    let t = spec_trim_end(u);
    lemma_trim_start_no_ws(s);
    lemma_trim_end_no_ws(u);
    lemma_trim_end_prefix(u);
    lemma_trim_end_len(u);
    if t.len() > 0 {
        assert(u.take(t.len() as int)[0] == u[0]);
    }
    assert(spec_trim_start(t) == t);
    assert(spec_trim_end(t) == t);
}

/// Law: cleaning is idempotent on a braced payload.  A reply whose trimmed
/// text opens with '{' and closes with '}' carries no fence to strip, so it
/// cleans to exactly its trim, and cleaning the cleaned text changes nothing.
pub proof fn lemma_clean_braced_payload(j: Seq<char>)
    requires
        spec_trim(j).len() > 0,
        spec_trim(j)[0] == '{',
        spec_trim(j).last() == '}',
    ensures
        spec_clean_fences(j) == spec_trim(j),
        spec_clean_fences(spec_clean_fences(j)) == spec_clean_fences(j),
{
    reveal_strlit("```json");
    reveal_strlit("```");
    let t = spec_trim(j);
    lemma_trim_idem(j);
    if spec_starts_with(t, fence_json()) {
        assert(t[0] == fence_json()[0]);
        assert(false);
    }
    if spec_starts_with(t, fence_bare()) {
        assert(t[0] == fence_bare()[0]);
        assert(false);
    }
    if spec_ends_with(t, fence_bare()) {
        assert(t.last() == t.subrange(t.len() - fence_bare().len(), t.len() as int).last());
        assert(t.last() == fence_bare().last());
        assert(false);
    }
    assert(spec_strip_lead_fence(t) == t);
    assert(spec_strip_trail_fence(t) == t);
    assert(spec_clean_fences(j) == spec_trim(t));
    assert(spec_clean_fences(t) == spec_trim(t));
}

/// Law: cleaning is lossless for a fenced payload.  A reply that wraps its
/// payload between a leading "```json" fence and a trailing "```" fence, each
/// on its own line, cleans to exactly that payload, and the bare payload
/// cleans to itself; so the fenced and the unfenced reply yield the same text
/// to the JSON reader.  The payload must carry no outer whitespace and must
/// not itself begin or end with a fence marker.
pub proof fn lemma_fence_wrap_lossless(inner: Seq<char>)
    requires
        spec_trim(inner) == inner,
        !spec_starts_with(inner, fence_bare()),
        !spec_ends_with(inner, fence_bare()),
    ensures
        spec_clean_fences("```json\n"@ + inner + "\n```"@) == inner,
        spec_clean_fences(inner) == inner,
{
    reveal_strlit("```json\n");
    reveal_strlit("\n```");
    reveal_strlit("```json");
    reveal_strlit("```");
    lemma_trim_fixpoint_parts(inner);
    let a = "```json\n"@;
    let b = "\n```"@;
    let w = a + inner + b;
    let mid = seq!['\n'] + inner + seq!['\n'];
    assert(!is_ws_char('`'));
    assert(is_ws_char('\n'));
    // the wrapped reply carries no outer whitespace: backticks at both ends
    assert(w[0] == '`');
    assert(w.last() == '`');
    assert(spec_trim_start(w) == w);
    assert(spec_trim_end(w) == w);
    // the leading tagged fence is stripped
    assert(fence_json() =~= w.subrange(0, fence_json().len() as int));
    assert(spec_starts_with(w, fence_json()));
    let s1 = spec_strip_lead_fence(w);
    assert(s1 =~= mid + fence_bare());
    // the trailing fence is stripped
    assert(fence_bare() =~= s1.subrange(s1.len() - fence_bare().len(), s1.len() as int));
    assert(spec_ends_with(s1, fence_bare()));
    let s2 = spec_strip_trail_fence(s1);
    assert(s2 =~= mid);
    // the final trim removes exactly the two newlines around the payload
    assert(mid.len() == inner.len() + 2);
    assert(mid[0] == '\n');
    if inner.len() == 0 {
        let one = seq!['\n'];
        assert(mid.drop_first() =~= one);
        assert(spec_trim_start(mid) == spec_trim_start(one));
        assert(one[0] == '\n');
        assert(one.drop_first() =~= Seq::<char>::empty());
        assert(spec_trim_start(one) == spec_trim_start(Seq::<char>::empty()));
        assert(spec_trim_start(Seq::<char>::empty()) == Seq::<char>::empty());
        assert(spec_trim_end(Seq::<char>::empty()) == Seq::<char>::empty());
        assert(spec_trim(mid) == inner);
    } else {
        let u = inner + seq!['\n'];
        assert(mid.drop_first() =~= u);
        assert(spec_trim_start(mid) == spec_trim_start(u));
        assert(u[0] == inner[0]);
        assert(!is_ws_char(u[0]));
        assert(spec_trim_start(u) == u);
        assert(u.last() == '\n');
        assert(u.drop_last() =~= inner);
        assert(spec_trim_end(u) == spec_trim_end(inner));
        assert(spec_trim_end(inner) == inner);
        assert(spec_trim(mid) == inner);
    }
    assert(spec_clean_fences(w) == inner);
    // the bare payload is already clean: no fence to strip, nothing to trim
    if spec_starts_with(inner, fence_json()) {
        assert(fence_bare() =~= inner.subrange(0, fence_bare().len() as int));
        assert(spec_starts_with(inner, fence_bare()));
    }
    assert(spec_strip_lead_fence(inner) == inner);
    assert(spec_strip_trail_fence(inner) == inner);
    assert(spec_clean_fences(inner) == inner);
}

} // verus!
