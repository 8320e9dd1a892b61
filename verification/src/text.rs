//! Character and string predicates that the chat rules rest on.

use vstd::prelude::*;

verus! {

/// The code points with the Unicode property `White_Space`.
pub open spec fn is_white_space(c: char) -> bool {
    let n = c as u32;
    ||| 0x09 <= n <= 0x0D
    ||| n == 0x20
    ||| n == 0x85
    ||| n == 0xA0
    ||| n == 0x1680
    ||| 0x2000 <= n <= 0x200A
    ||| n == 0x2028
    ||| n == 0x2029
    ||| n == 0x202F
    ||| n == 0x205F
    ||| n == 0x3000
}

/// A text is blank when it holds nothing but white space; the empty text is
/// blank.
pub open spec fn is_blank(s: Seq<char>) -> bool {
    forall|i: int| 0 <= i < s.len() ==> is_white_space(#[trigger] s[i])
}

/// Tells whether `c` is a white space character.
pub fn white_space(c: char) -> (r: bool)
    ensures
        r == is_white_space(c),
{
    let n: u32 = c as u32;
    (0x09 <= n && n <= 0x0D) || n == 0x20 || n == 0x85 || n == 0xA0 || n == 0x1680
        || (0x2000 <= n && n <= 0x200A) || n == 0x2028 || n == 0x2029 || n == 0x202F
        || n == 0x205F || n == 0x3000
}

/// Tells whether two texts hold the same characters.
pub fn same_text(a: &str, b: &str) -> (r: bool)
    ensures
        r == (a@ == b@),
{
    let left = a.to_owned();
    let right = b.to_owned();
    left == right
}

/// A copy of a list of texts.
pub fn copy_texts(texts: &Vec<String>) -> (r: Vec<String>)
    ensures
        r.deep_view() == texts.deep_view(),
{
    let mut copy: Vec<String> = Vec::new();
    let mut i: usize = 0;
    while i < texts.len()
        invariant
            i <= texts.len(),
            copy.len() == i,
            forall|k: int| 0 <= k < i ==> copy[k]@ == texts[k]@,
        decreases texts.len() - i,
    {
        copy.push(texts[i].clone());
        i += 1;
    }
    assert(copy.deep_view() =~= texts.deep_view());
    copy
}

/// A text without the white space at its start.
pub open spec fn trim_start(s: Seq<char>) -> Seq<char>
    decreases s.len(),
{
    if s.len() > 0 && is_white_space(s.first()) {
        trim_start(s.drop_first())
    } else {
        s
    }
}

/// A text without the white space at its end.
pub open spec fn trim_end(s: Seq<char>) -> Seq<char>
    decreases s.len(),
{
    if s.len() > 0 && is_white_space(s.last()) {
        trim_end(s.drop_last())
    } else {
        s
    }
}

/// A text without the white space at its start and at its end.
pub open spec fn trimmed(s: Seq<char>) -> Seq<char> {
    trim_end(trim_start(s))
}

/// Trimming at the start leaves nothing exactly of a blank text.
pub proof fn lemma_trim_start_of_blank(s: Seq<char>)
    ensures
        trim_start(s).len() == 0 <==> is_blank(s),
        trim_start(s).len() > 0 ==> !is_white_space(trim_start(s).first()),
    decreases s.len(),
{
    if s.len() > 0 && is_white_space(s.first()) {
        let rest = s.drop_first();
        lemma_trim_start_of_blank(rest);
        if is_blank(rest) {
            assert forall|i: int| 0 <= i < s.len() implies is_white_space(#[trigger] s[i]) by {
                if i > 0 {
                    assert(s[i] == rest[i - 1]);
                }
            }
        } else {
            let k = choose|k: int| 0 <= k < rest.len() && !is_white_space(#[trigger] rest[k]);
            assert(s[k + 1] == rest[k]);
        }
    } else if s.len() > 0 {
        assert(!is_white_space(s[0]));
    }
}

/// A text that does not start with white space keeps its first character
/// when it is trimmed at its end.
proof fn lemma_trim_end_keeps_first(s: Seq<char>)
    requires
        s.len() > 0,
        !is_white_space(s.first()),
    ensures
        trim_end(s).len() > 0,
    decreases s.len(),
{
    if is_white_space(s.last()) {
        let rest = s.drop_last();
        assert(rest.len() > 0);
        assert(rest.first() == s.first());
        lemma_trim_end_keeps_first(rest);
    }
}

/// A text trims to nothing exactly when it is blank.
pub proof fn lemma_trimmed_empty_iff_blank(s: Seq<char>)
    ensures
        trimmed(s).len() == 0 <==> is_blank(s),
{
    lemma_trim_start_of_blank(s);
    let t = trim_start(s);
    if t.len() > 0 {
        lemma_trim_end_keeps_first(t);
    }
}

/// Tells whether `text` is blank.
pub fn blank(text: &str) -> (r: bool)
    ensures
        r == is_blank(text@),
{
    let mut all: bool = true;
    for c in it: text.chars()
        invariant
            it.seq() == text@,
            all == is_blank(text@.take(it.index() as int)),
    {
        proof {
            let n = it.index() as int;
            assert(text@.take(n + 1).drop_last() == text@.take(n));
            assert(text@.take(n + 1).last() == c);
            assert(forall|i: int| 0 <= i < n ==> text@.take(n)[i] == text@.take(n + 1)[i]);
        }
        all = all && white_space(c);
    }
    assert(text@.take(text@.len() as int) == text@);
    all
}

/// Tells whether `s` ends with `suffix`.
pub open spec fn has_suffix(s: Seq<char>, suffix: Seq<char>) -> bool {
    suffix.len() <= s.len() && s.subrange(s.len() - suffix.len(), s.len() as int) == suffix
}

/// The lowercase form of a text, as `str::to_lowercase` gives it.
pub uninterp spec fn lowercase(text: Seq<char>) -> Seq<char>;

/// `str::to_lowercase`: the lowercase form of the text, by the Unicode
/// rules, which take no locale into account.
#[verifier::external_body]
fn to_lowercase(text: &str) -> (r: String)
    ensures
        r@ == lowercase(text@),
{
    text.to_lowercase()
}

/// A text names a GIF when its lowercase form ends with `.gif`.
pub open spec fn names_gif(text: Seq<char>) -> bool {
    has_suffix(lowercase(text), ".gif"@)
}

/// Tells whether a text ends with `.gif`, letter for letter.
pub fn ends_with_gif(text: &str) -> (r: bool)
    ensures
        r == has_suffix(text@, ".gif"@),
{
    proof {
        reveal_strlit(".gif");
    }
    let n = text.unicode_len();
    if n < 4 {
        return false;
    }
    let found = text.get_char(n - 4) == '.' && text.get_char(n - 3) == 'g' && text.get_char(n - 2)
        == 'i' && text.get_char(n - 1) == 'f';
    proof {
        let tail = text@.subrange(n - 4, n as int);
        if found {
            assert(tail =~= ".gif"@);
        } else {
            assert(tail[0] == text@[n - 4]);
            assert(tail[1] == text@[n - 3]);
            assert(tail[2] == text@[n - 2]);
            assert(tail[3] == text@[n - 1]);
        }
    }
    found
}

/// Tells whether a text names a GIF, whatever the case of its letters.
pub fn is_gif(text: &str) -> (r: bool)
    ensures
        r == names_gif(text@),
{
    let lowered = to_lowercase(text);
    ends_with_gif(lowered.as_str())
}

/// The address of the avatar that belongs to a name.
pub open spec fn avatar_url(name: Seq<char>) -> Seq<char> {
    "https://avatars.dicebear.com/api/adventurer-neutral/"@ + name + ".svg"@
}

/// Builds the address of the avatar that belongs to `name`.
pub fn avatar_for(name: &str) -> (r: String)
    ensures
        r@ == avatar_url(name@),
{
    let mut url = "https://avatars.dicebear.com/api/adventurer-neutral/".to_owned();
    url.append(name);
    url.append(".svg");
    url
}

} // verus!
