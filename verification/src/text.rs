use vstd::prelude::*;
use vstd::string::*;

verus! {

/// Unicode `White_Space`: the characters at which a text is split into words.
pub open spec fn is_space(c: char) -> bool {
    let v = c as u32;
    ||| 0x9 <= v <= 0xD
    ||| v == 0x20
    ||| v == 0x85
    ||| v == 0xA0
    ||| v == 0x1680
    ||| 0x2000 <= v <= 0x200A
    ||| v == 0x2028
    ||| v == 0x2029
    ||| v == 0x202F
    ||| v == 0x205F
    ||| v == 0x3000
}

/// The words of a text: its maximal runs of non-space characters, in order.
/// A non-space character extends the last word when it directly follows
/// one, and starts a new word otherwise.
pub open spec fn words(s: Seq<char>) -> Seq<Seq<char>>
    decreases s.len(),
{
    if s.len() == 0 {
        seq![]
    } else {
        let prev = words(s.drop_last());
        let c = s.last();
        if is_space(c) {
            prev
        } else if s.len() >= 2 && !is_space(s[s.len() - 2]) {
            prev.update(prev.len() - 1, prev.last().push(c))
        } else {
            prev.push(seq![c])
        }
    }
}

/// The pieces joined with `sep` between each two of them.
pub open spec fn join_with(pieces: Seq<Seq<char>>, sep: char) -> Seq<char>
    decreases pieces.len(),
{
    if pieces.len() == 0 {
        seq![]
    } else if pieces.len() == 1 {
        pieces[0]
    } else {
        join_with(pieces.drop_last(), sep).push(sep) + pieces.last()
    }
}

/// No character of `s` is a space.
pub open spec fn has_no_space(s: Seq<char>) -> bool {
    forall|i: int| 0 <= i < s.len() ==> !is_space(#[trigger] s[i])
}

/// Whether `c` is a space character.
pub fn is_space_char(c: char) -> (r: bool)
    ensures
        r == is_space(c),
{
    let v = c as u32;
    (0x9 <= v && v <= 0xD) || v == 0x20 || v == 0x85 || v == 0xA0 || v == 0x1680 || (0x2000 <= v
        && v <= 0x200A) || v == 0x2028 || v == 0x2029 || v == 0x202F || v == 0x205F || v == 0x3000
}

/// Within ASCII the spaces are exactly the blank and the controls tab, line
/// feed, vertical tab, form feed and carriage return (what
/// `split_whitespace` splits on); letters, digits and punctuation such as
/// `.`, `-` or `_` never split a word.
pub proof fn law_ascii_spaces(c: char)
    requires
        (c as u32) < 128,
    ensures
        is_space(c) <==> (c == ' ' || c == '\t' || c == '\n' || (c as u32) == 0x0B || (c as u32)
            == 0x0C || c == '\r'),
        (0x21 <= (c as u32) <= 0x7E) ==> !is_space(c),
{
}

/// Two texts are equal.
pub fn text_eq(a: &str, b: &str) -> (r: bool)
    ensures
        r == (a@ == b@),
{
    let n = a.unicode_len();
    if n != b.unicode_len() {
        return false;
    }
    let mut i: usize = 0;
    while i < n
        invariant
            n == a@.len(),
            n == b@.len(),
            i <= n,
            forall|j: int| 0 <= j < i ==> a@[j] == b@[j],
        decreases n - i,
    {
        if a.get_char(i) != b.get_char(i) {
            return false;
        }
        i = i + 1;
    }
    assert(a@ =~= b@);
    true
}

/// Every character of `s` is ASCII.
pub open spec fn all_ascii(s: Seq<char>) -> bool {
    forall|i: int| 0 <= i < s.len() ==> (#[trigger] s[i] as u32) < 128
}

/// The lowercase form of an ASCII character: `A`-`Z` become `a`-`z`, every
/// other character stays.
pub open spec fn ascii_lower(c: char) -> char {
    if 65 <= (c as u32) <= 90 {
        ((c as u32) + 32) as char
    } else {
        c
    }
}

/// The uppercase form of an ASCII character: `a`-`z` become `A`-`Z`, every
/// other character stays.
pub open spec fn ascii_upper(c: char) -> char {
    if 97 <= (c as u32) <= 122 {
        ((c as u32) - 32) as char
    } else {
        c
    }
}

/// A text with `A`-`Z` made `a`-`z`.
pub open spec fn lower_all(s: Seq<char>) -> Seq<char> {
    s.map_values(|c: char| ascii_lower(c))
}

/// A text with `a`-`z` made `A`-`Z` (`str::to_ascii_uppercase`).
pub open spec fn upper_all(s: Seq<char>) -> Seq<char> {
    s.map_values(|c: char| ascii_upper(c))
}

/// What `str::to_lowercase` gives for a text: its Unicode lowercase form.
pub uninterp spec fn lowercase_of(s: Seq<char>) -> Seq<char>;

/// The lowercase form of a text (`str::to_lowercase`). Claimed: the result
/// is the named `lowercase_of` of the text, and an ASCII text is mapped
/// character by character, `A`-`Z` to `a`-`z` and every other ASCII
/// character to itself: the Unicode lowercase mapping that std's
/// documentation names, on the ASCII range (`str::to_ascii_lowercase`).
#[verifier::external_body]
pub(crate) fn to_lowercase(s: &str) -> (r: String)
    ensures
        r@ == lowercase_of(s@),
        all_ascii(s@) ==> r@ == lower_all(s@),
{
    s.to_lowercase()
}

/// What `Debug` writes for a text: the text in double quotes, with quotes,
/// backslashes, control and unprintable characters escaped.
pub uninterp spec fn debug_text(s: Seq<char>) -> Seq<char>;

/// The `Debug` form of a text (`<str as Debug>::fmt`, through `format!`).
/// Claimed: the result is the named `debug_text` of the text.
#[verifier::external_body]
pub(crate) fn debug_quote(s: &str) -> (r: String)
    ensures
        r@ == debug_text(s@),
{
    format!("{s:?}")
}

/// Appends one character to a string (`String::push`). Claimed: the
/// string afterwards is the string before with the character at its end.
#[verifier::external_body]
pub(crate) fn push_char(s: &mut String, c: char)
    ensures
        final(s)@ == old(s)@.push(c),
{
    s.push(c);
}

proof fn lemma_join_extend_last(pieces: Seq<Seq<char>>, sep: char, c: char)
    requires
        pieces.len() >= 1,
    ensures
        join_with(pieces.update(pieces.len() - 1, pieces.last().push(c)), sep) == join_with(
            pieces,
            sep,
        ).push(c),
{
    let upd = pieces.update(pieces.len() - 1, pieces.last().push(c));
    if pieces.len() > 1 {
        assert(upd.drop_last() =~= pieces.drop_last());
        assert(join_with(upd, sep) =~= join_with(pieces, sep).push(c));
    }
}

proof fn lemma_join_push(pieces: Seq<Seq<char>>, sep: char, w: Seq<char>)
    ensures
        join_with(pieces.push(w), sep) == if pieces.len() == 0 {
            w
        } else {
            join_with(pieces, sep).push(sep) + w
        },
{
    assert(pieces.push(w).drop_last() =~= pieces);
}

/// Every word is non-empty and holds no space.
pub(crate) proof fn lemma_words_shape(s: Seq<char>)
    ensures
        forall|k: int|
            0 <= k < words(s).len() ==> #[trigger] words(s)[k].len() > 0 && has_no_space(
                words(s)[k],
            ),
        words(s).len() == 0 <==> all_space(s),
    decreases s.len(),
{
    if s.len() > 0 {
        lemma_words_shape(s.drop_last());
        let prev = words(s.drop_last());
        let c = s.last();
        if is_space(c) {
            assert(all_space(s) == all_space(s.drop_last())) by {
                if all_space(s.drop_last()) {
                    assert forall|i: int| 0 <= i < s.len() implies is_space(#[trigger] s[i]) by {
                        if i < s.len() - 1 {
                            assert(s.drop_last()[i] == s[i]);
                        }
                    }
                }
                if all_space(s) {
                    assert forall|i: int| 0 <= i < s.drop_last().len() implies is_space(
                        #[trigger] s.drop_last()[i],
                    ) by {
                        assert(s.drop_last()[i] == s[i]);
                    }
                }
            }
        } else if s.len() >= 2 && !is_space(s[s.len() - 2]) {
            assert(!all_space(s.drop_last())) by {
                assert(s.drop_last()[s.len() - 2] == s[s.len() - 2]);
            }
            let w = prev.last().push(c);
            assert forall|i: int| 0 <= i < w.len() implies !is_space(#[trigger] w[i]) by {
                if i < w.len() - 1 {
                    assert(w[i] == prev.last()[i]);
                }
            }
        } else {
            assert(!all_space(s)) by {
                assert(!is_space(s[s.len() - 1]));
            }
        }
    }
}

/// Every character of `s` is a space (so `s` has no words).
pub open spec fn all_space(s: Seq<char>) -> bool {
    forall|i: int| 0 <= i < s.len() ==> is_space(#[trigger] s[i])
}

/// The words of `s` joined with `_`: every run of spaces becomes one `_`,
/// and spaces at either end are dropped.
pub fn join_words(raw: &str) -> (r: String)
    ensures
        r@ == join_with(words(raw@), '_'),
{
    let n = raw.unicode_len();
    let mut out = String::new();
    let mut i: usize = 0;
    let mut prev_space = true;
    let mut any_word = false;
    while i < n
        invariant
            n == raw@.len(),
            i <= n,
            out@ == join_with(words(raw@.take(i as int)), '_'),
            any_word == (words(raw@.take(i as int)).len() > 0),
            prev_space == (i == 0 || is_space(raw@[i - 1])),
        decreases n - i,
    {
        let c = raw.get_char(i);
        let ghost t = raw@.take(i + 1);
        proof {
            assert(t.drop_last() =~= raw@.take(i as int));
            assert(t.last() == c);
            lemma_words_shape(raw@.take(i as int));
        }
        if is_space_char(c) {
            prev_space = true;
        } else if !prev_space {
            proof {
                assert(t[t.len() - 2] == raw@[i - 1]);
                lemma_join_extend_last(words(raw@.take(i as int)), '_', c);
            }
            push_char(&mut out, c);
        } else {
            proof {
                if i >= 1 {
                    assert(t[t.len() - 2] == raw@[i - 1]);
                }
                lemma_join_push(words(raw@.take(i as int)), '_', seq![c]);
                assert(out@.push('_').push(c) =~= out@.push('_') + seq![c]);
            }
            if any_word {
                push_char(&mut out, '_');
            }
            push_char(&mut out, c);
            any_word = true;
            prev_space = false;
        }
        i = i + 1;
    }
    assert(raw@.take(n as int) =~= raw@);
    out
}

proof fn lemma_join_no_space(pieces: Seq<Seq<char>>, sep: char)
    requires
        !is_space(sep),
        forall|k: int| 0 <= k < pieces.len() ==> has_no_space(#[trigger] pieces[k]),
    ensures
        has_no_space(join_with(pieces, sep)),
    decreases pieces.len(),
{
    if pieces.len() > 1 {
        let front = pieces.drop_last();
        assert forall|k: int| 0 <= k < front.len() implies has_no_space(#[trigger] front[k]) by {
            assert(front[k] == pieces[k]);
        }
        lemma_join_no_space(front, sep);
        let a = join_with(front, sep).push(sep);
        let w = pieces.last();
        assert(has_no_space(pieces[pieces.len() - 1]));
        assert forall|i: int| 0 <= i < (a + w).len() implies !is_space(#[trigger] (a + w)[i]) by {
            if i < a.len() - 1 {
                assert((a + w)[i] == join_with(front, sep)[i]);
            } else if i >= a.len() {
                assert((a + w)[i] == w[i - a.len()]);
            }
        }
    } else if pieces.len() == 1 {
        assert(has_no_space(pieces[0]));
    }
}

pub(crate) proof fn lemma_words_of_spaceless(t: Seq<char>)
    requires
        has_no_space(t),
    ensures
        words(t) == (if t.len() == 0 {
            Seq::<Seq<char>>::empty()
        } else {
            seq![t]
        }),
    decreases t.len(),
{
    if t.len() > 0 {
        let front = t.drop_last();
        assert forall|i: int| 0 <= i < front.len() implies !is_space(#[trigger] front[i]) by {
            assert(front[i] == t[i]);
        }
        lemma_words_of_spaceless(front);
        assert(!is_space(t[t.len() - 1]));
        if t.len() >= 2 {
            assert(!is_space(t[t.len() - 2]));
            assert(front.push(t.last()) =~= t);
            assert(words(t) =~= seq![t]);
        } else {
            assert(seq![t.last()] =~= t);
            assert(words(t) =~= seq![t]);
        }
    }
}

/// The words of an ASCII text are ASCII.
proof fn lemma_words_ascii(s: Seq<char>)
    requires
        all_ascii(s),
    ensures
        forall|k: int| 0 <= k < words(s).len() ==> all_ascii(#[trigger] words(s)[k]),
    decreases s.len(),
{
    if s.len() > 0 {
        let front = s.drop_last();
        assert forall|i: int| 0 <= i < front.len() implies (#[trigger] front[i] as u32) < 128 by {
            assert(front[i] == s[i]);
        }
        lemma_words_ascii(front);
        lemma_words_shape(front);
        let prev = words(front);
        let c = s.last();
        assert((s[s.len() - 1] as u32) < 128);
        if is_space(c) {
        } else if s.len() >= 2 && !is_space(s[s.len() - 2]) {
            assert(prev.len() > 0) by {
                assert(!is_space(front[s.len() - 2]));
            }
            let w = prev.last().push(c);
            assert(all_ascii(prev[prev.len() - 1]));
            assert forall|i: int| 0 <= i < w.len() implies (#[trigger] w[i] as u32) < 128 by {
                if i < w.len() - 1 {
                    assert(w[i] == prev.last()[i]);
                }
            }
            let upd = prev.update(prev.len() - 1, w);
            assert forall|k: int| 0 <= k < upd.len() implies all_ascii(#[trigger] upd[k]) by {
                if k < prev.len() - 1 {
                    assert(upd[k] == prev[k]);
                }
            }
        } else {
            let w = seq![c];
            assert(all_ascii(w));
            let pushed = prev.push(w);
            assert forall|k: int| 0 <= k < pushed.len() implies all_ascii(#[trigger] pushed[k]) by {
                if k < prev.len() {
                    assert(pushed[k] == prev[k]);
                }
            }
        }
    }
}

/// Pieces of ASCII joined with an ASCII separator are ASCII.
proof fn lemma_join_ascii(pieces: Seq<Seq<char>>, sep: char)
    requires
        (sep as u32) < 128,
        forall|k: int| 0 <= k < pieces.len() ==> all_ascii(#[trigger] pieces[k]),
    ensures
        all_ascii(join_with(pieces, sep)),
    decreases pieces.len(),
{
    if pieces.len() > 1 {
        let front = pieces.drop_last();
        assert forall|k: int| 0 <= k < front.len() implies all_ascii(#[trigger] front[k]) by {
            assert(front[k] == pieces[k]);
        }
        lemma_join_ascii(front, sep);
        let a = join_with(front, sep).push(sep);
        let w = pieces.last();
        assert(all_ascii(pieces[pieces.len() - 1]));
        assert forall|i: int| 0 <= i < (a + w).len() implies (#[trigger] (a + w)[i] as u32) < 128 by {
            if i < a.len() - 1 {
                assert((a + w)[i] == join_with(front, sep)[i]);
            } else if i >= a.len() {
                assert((a + w)[i] == w[i - a.len()]);
            }
        }
    } else if pieces.len() == 1 {
        assert(all_ascii(pieces[0]));
    }
}

/// The words of an ASCII text, joined with `_`, are ASCII.
pub proof fn lemma_joined_words_ascii(s: Seq<char>)
    requires
        all_ascii(s),
    ensures
        all_ascii(join_with(words(s), '_')),
{
    lemma_words_ascii(s);
    lemma_join_ascii(words(s), '_');
}

/// Spaces at the end of a text add no word.
pub proof fn lemma_words_trailing_space(x: Seq<char>, sp: Seq<char>)
    requires
        all_space(sp),
    ensures
        words(x + sp) == words(x),
    decreases sp.len(),
{
    if sp.len() == 0 {
        assert(x + sp =~= x);
    } else {
        let front = sp.drop_last();
        assert(all_space(front)) by {
            assert forall|i: int| 0 <= i < front.len() implies is_space(#[trigger] front[i]) by {
                assert(front[i] == sp[i]);
            }
        }
        lemma_words_trailing_space(x, front);
        assert((x + sp).drop_last() =~= x + front);
        assert(is_space(sp[sp.len() - 1]));
        assert((x + sp).last() == sp.last());
    }
}

/// After a space (or from the start) the words of what follows are words of
/// their own: the words of `x + y` are those of `x`, then those of `y`.
pub proof fn lemma_words_concat(x: Seq<char>, y: Seq<char>)
    requires
        x.len() == 0 || is_space(x.last()),
    ensures
        words(x + y) == words(x) + words(y),
    decreases y.len(),
{
    if y.len() == 0 {
        assert(x + y =~= x);
        assert(words(x) + words(y) =~= words(x));
    } else {
        let yf = y.drop_last();
        let c = y.last();
        let xy = x + y;
        lemma_words_concat(x, yf);
        assert(xy.drop_last() =~= x + yf);
        assert(xy.last() == c);
        let p = words(x) + words(yf);
        if is_space(c) {
        } else if xy.len() >= 2 && !is_space(xy[xy.len() - 2]) {
            if yf.len() == 0 {
                assert(xy[xy.len() - 2] == x.last());
            }
            assert(yf.len() > 0);
            assert(xy[xy.len() - 2] == yf[yf.len() - 1]);
            assert(y[y.len() - 2] == yf[yf.len() - 1]);
            lemma_words_shape(yf);
            assert(!all_space(yf)) by {
                assert(!is_space(yf[yf.len() - 1]));
            }
            let wy = words(yf);
            assert(wy.len() > 0);
            assert(p.last() == wy.last());
            assert(p.update(p.len() - 1, p.last().push(c)) =~= words(x) + wy.update(
                wy.len() - 1,
                wy.last().push(c),
            ));
        } else {
            if y.len() >= 2 {
                assert(y[y.len() - 2] == xy[xy.len() - 2]);
            }
            assert(p.push(seq![c]) =~= words(x) + words(yf).push(seq![c]));
        }
    }
}

/// Making `a`-`z` into `A`-`Z` changes no space, so the words of the upper
/// form are the upper forms of the words.
pub proof fn lemma_words_upper(s: Seq<char>)
    ensures
        words(upper_all(s)) == words(s).map_values(|w: Seq<char>| upper_all(w)),
    decreases s.len(),
{
    let u = upper_all(s);
    if s.len() == 0 {
        assert(words(s).map_values(|w: Seq<char>| upper_all(w)) =~= Seq::<Seq<char>>::empty());
    } else {
        let front = s.drop_last();
        lemma_words_upper(front);
        assert(u.drop_last() =~= upper_all(front));
        let c = s.last();
        assert(u.last() == ascii_upper(c));
        assert(is_space(ascii_upper(c)) == is_space(c));
        let prev = words(front);
        let up = prev.map_values(|w: Seq<char>| upper_all(w));
        if is_space(c) {
        } else if s.len() >= 2 && !is_space(s[s.len() - 2]) {
            assert(u[u.len() - 2] == ascii_upper(s[s.len() - 2]));
            assert(is_space(ascii_upper(s[s.len() - 2])) == is_space(s[s.len() - 2]));
            lemma_words_shape(front);
            assert(!all_space(front)) by {
                assert(!is_space(front[front.len() - 1]));
            }
            let w = prev.last().push(c);
            assert(upper_all(w) =~= up.last().push(ascii_upper(c)));
            assert(up.update(up.len() - 1, up.last().push(ascii_upper(c))) =~= prev.update(
                prev.len() - 1,
                w,
            ).map_values(|w: Seq<char>| upper_all(w)));
        } else {
            if s.len() >= 2 {
                assert(u[u.len() - 2] == ascii_upper(s[s.len() - 2]));
                assert(is_space(ascii_upper(s[s.len() - 2])) == is_space(s[s.len() - 2]));
            }
            assert(upper_all(seq![c]) =~= seq![ascii_upper(c)]);
            assert(up.push(seq![ascii_upper(c)]) =~= prev.push(seq![c]).map_values(
                |w: Seq<char>| upper_all(w),
            ));
        }
    }
}

/// Joining the upper forms of pieces with `_` is the upper form of joining
/// them.
pub proof fn lemma_join_upper(pieces: Seq<Seq<char>>)
    ensures
        join_with(pieces.map_values(|w: Seq<char>| upper_all(w)), '_') == upper_all(
            join_with(pieces, '_'),
        ),
    decreases pieces.len(),
{
    let m = pieces.map_values(|w: Seq<char>| upper_all(w));
    if pieces.len() == 0 {
        assert(upper_all(join_with(pieces, '_')) =~= Seq::<char>::empty());
    } else if pieces.len() == 1 {
    } else {
        lemma_join_upper(pieces.drop_last());
        assert(m.drop_last() =~= pieces.drop_last().map_values(|w: Seq<char>| upper_all(w)));
        let j = join_with(pieces.drop_last(), '_');
        assert(ascii_upper('_') == '_');
        assert(upper_all(j).push('_') + upper_all(pieces.last()) =~= upper_all(
            j.push('_') + pieces.last(),
        ));
    }
}

/// The pieces one after another, with nothing between them.
pub open spec fn concat_all(pieces: Seq<Seq<char>>) -> Seq<char>
    decreases pieces.len(),
{
    if pieces.len() == 0 {
        seq![]
    } else {
        concat_all(pieces.drop_last()) + pieces.last()
    }
}

/// The non-space characters of a text, in order.
pub open spec fn non_space_chars(s: Seq<char>) -> Seq<char> {
    s.filter(|c: char| !is_space(c))
}

/// The words of a text are non-empty and hold no space, and one after
/// another they are the text's non-space characters, in order: splitting
/// drops the spaces and nothing else.
pub proof fn law_words_are_the_non_space_runs(s: Seq<char>)
    ensures
        forall|k: int|
            0 <= k < words(s).len() ==> #[trigger] words(s)[k].len() > 0 && has_no_space(
                words(s)[k],
            ),
        concat_all(words(s)) == non_space_chars(s),
    decreases s.len(),
{
    lemma_words_shape(s);
    if s.len() > 0 {
        law_words_are_the_non_space_runs(s.drop_last());
        lemma_words_shape(s.drop_last());
        assert(non_space_chars(s) == if is_space(s.last()) {
            non_space_chars(s.drop_last())
        } else {
            non_space_chars(s.drop_last()).push(s.last())
        }) by {
            reveal_with_fuel(Seq::<char>::filter, 1);
        }
        let prev = words(s.drop_last());
        let c = s.last();
        if is_space(c) {
        } else if s.len() >= 2 && !is_space(s[s.len() - 2]) {
            let upd = prev.update(prev.len() - 1, prev.last().push(c));
            assert(prev.len() > 0) by {
                assert(!is_space(s.drop_last()[s.len() - 2]));
            }
            assert(upd.drop_last() =~= prev.drop_last());
            assert(concat_all(upd) =~= concat_all(prev).push(c));
        } else {
            assert(prev.push(seq![c]).drop_last() =~= prev);
            assert(concat_all(prev.push(seq![c])) =~= concat_all(prev).push(c));
        }
    }
}

/// Joining the words of a text is idempotent: the joined form has no spaces,
/// so it is its own single word, and joining its words gives it back.
pub proof fn law_join_words_idempotent(s: Seq<char>)
    ensures
        has_no_space(join_with(words(s), '_')),
        join_with(words(join_with(words(s), '_')), '_') == join_with(words(s), '_'),
{
    lemma_words_shape(s);
    assert(!is_space('_'));
    lemma_join_no_space(words(s), '_');
    let t = join_with(words(s), '_');
    lemma_words_of_spaceless(t);
}

} // verus!
