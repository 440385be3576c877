use vstd::prelude::*;

verus! {

/// Whether `c` has the Unicode `Uppercase` property, as `char::is_uppercase` reports it.
pub uninterp spec fn char_is_uppercase(c: char) -> bool;

/// Calls `char::is_uppercase`: the result is the character's Unicode `Uppercase` property,
/// named `char_is_uppercase` here; for an ASCII character it is set exactly for `'A'..='Z'`,
/// as the standard library documents.
#[verifier::external_body]
fn is_uppercase(c: char) -> (r: bool)
    ensures
        r == char_is_uppercase(c),
        (c as u32) < 128 ==> (r <==> ('A' <= c && c <= 'Z')),
{
    c.is_uppercase()
}

/// What `str::to_uppercase` gives for the characters `s`: each character replaced by its
/// Unicode uppercase mapping.
pub uninterp spec fn str_uppercase(s: Seq<char>) -> Seq<char>;

/// What `str::to_lowercase` gives for the characters `s`: each character replaced by its
/// Unicode lowercase mapping.
pub uninterp spec fn str_lowercase(s: Seq<char>) -> Seq<char>;

/// `c` with an ASCII lowercase letter made uppercase; any other character as it is.
pub open spec fn ascii_upper(c: char) -> char {
    if 'a' <= c && c <= 'z' { ((c as u32) - 32) as char } else { c }
}

/// `c` with an ASCII uppercase letter made lowercase; any other character as it is.
pub open spec fn ascii_lower(c: char) -> char {
    if 'A' <= c && c <= 'Z' { ((c as u32) + 32) as char } else { c }
}

/// Whether every character of `s` is ASCII.
pub open spec fn all_ascii(s: Seq<char>) -> bool {
    forall|k: int| 0 <= k < s.len() ==> (#[trigger] s[k] as u32) < 128
}

/// Calls `str::to_uppercase`: the result is the text with every character replaced by its
/// Unicode uppercase mapping, named `str_uppercase` here; on ASCII text that maps exactly the
/// letters `a` to `z` onto `A` to `Z`.
#[verifier::external_body]
fn to_uppercase(s: &str) -> (r: String)
    ensures
        r@ == str_uppercase(s@),
        all_ascii(s@) ==> r@ == s@.map_values(|c: char| ascii_upper(c)),
{
    s.to_uppercase()
}

/// Calls `str::to_lowercase`: the result is the text with every character replaced by its
/// Unicode lowercase mapping, named `str_lowercase` here; on ASCII text that maps exactly the
/// letters `A` to `Z` onto `a` to `z`.
#[verifier::external_body]
fn to_lowercase(s: &str) -> (r: String)
    ensures
        r@ == str_lowercase(s@),
        all_ascii(s@) ==> r@ == s@.map_values(|c: char| ascii_lower(c)),
{
    s.to_lowercase()
}

/// Calls `String::push`: appends the character `c`.
#[verifier::external_body]
fn push_char(s: &mut String, c: char)
    ensures
        final(s)@ == old(s)@.push(c),
{
    s.push(c)
}

/// The words of `rest`, given the word `current` started before it: an uppercase character
/// closes the current word and starts a new one; any other character extends the current
/// word; at the end the current word is closed unless it is empty.
pub open spec fn split_words(rest: Seq<char>, current: Seq<char>) -> Seq<Seq<char>>
    decreases rest.len(),
{
    if rest.len() == 0 {
        if current.len() == 0 {
            Seq::empty()
        } else {
            seq![current]
        }
    } else if char_is_uppercase(rest[0]) {
        seq![current] + split_words(rest.drop_first(), seq![rest[0]])
    } else {
        split_words(rest.drop_first(), current.push(rest[0]))
    }
}

/// The words of a Vulkan command name such as `vkCreateDevice`: the name without its `vk`
/// prefix, cut before each uppercase character (the first word being whatever follows `vk`).
pub open spec fn name_parts(s: Seq<char>) -> Seq<Seq<char>> {
    split_words(s.skip(3), seq![s[2]])
}

proof fn lemma_split_words(rest: Seq<char>, current: Seq<char>)
    requires
        current.len() > 0,
    ensures
        split_words(rest, current).flatten() == current + rest,
        split_words(rest, current).len() > 0,
        split_words(rest, current)[0].len() > 0,
        split_words(rest, current)[0][0] == current[0],
        forall|i: int| 0 <= i < split_words(rest, current).len() ==> (#[trigger] split_words(rest, current)[i]).len() > 0,
        forall|i: int| 0 < i < split_words(rest, current).len() ==> char_is_uppercase(#[trigger] split_words(rest, current)[i][0]),
        (forall|k: int| 1 <= k < current.len() ==> !char_is_uppercase(#[trigger] current[k])) ==> forall|i: int, k: int|
            0 <= i < split_words(rest, current).len() && 1 <= k < split_words(rest, current)[i].len()
                ==> !char_is_uppercase(#[trigger] split_words(rest, current)[i][k]),
    decreases rest.len(),
{
    let words = split_words(rest, current);
    if rest.len() == 0 {
        assert(words == seq![current]);
        assert(words.drop_first() =~= Seq::<Seq<char>>::empty());
        assert(current + rest =~= current);
        assert(words.flatten() == current + words.drop_first().flatten());
    } else if char_is_uppercase(rest[0]) {
        let tail = split_words(rest.drop_first(), seq![rest[0]]);
        lemma_split_words(rest.drop_first(), seq![rest[0]]);
        assert(words == seq![current] + tail);
        assert(words.drop_first() =~= tail);
        assert(seq![rest[0]] + rest.drop_first() =~= rest);
        assert(words.flatten() == current + tail.flatten());
        assert forall|i: int| 0 <= i < words.len() implies (#[trigger] words[i]).len() > 0 by {
            if i > 0 {
                assert(words[i] == tail[i - 1]);
            }
        }
        assert forall|i: int| 0 < i < words.len() implies char_is_uppercase(#[trigger] words[i][0]) by {
            assert(words[i] == tail[i - 1]);
        }
        if forall|k: int| 1 <= k < current.len() ==> !char_is_uppercase(#[trigger] current[k]) {
            assert forall|i: int, k: int| 0 <= i < words.len() && 1 <= k < words[i].len()
                implies !char_is_uppercase(#[trigger] words[i][k]) by {
                if i > 0 {
                    assert(words[i] == tail[i - 1]);
                }
            }
        }
    } else {
        let next = current.push(rest[0]);
        lemma_split_words(rest.drop_first(), next);
        assert(next + rest.drop_first() =~= current + rest);
        if forall|k: int| 1 <= k < current.len() ==> !char_is_uppercase(#[trigger] current[k]) {
            assert forall|k: int| 1 <= k < next.len() implies !char_is_uppercase(#[trigger] next[k]) by {
                if k < current.len() {
                    assert(next[k] == current[k]);
                }
            }
        }
    }
}

/// The words of a command name put back together give the name without its `vk` prefix;
/// every word is non-empty, every word but the first starts with an uppercase character, and
/// no character after the first of a word is uppercase.
pub proof fn lemma_name_parts(s: Seq<char>)
    requires
        s.len() >= 3,
    ensures
        name_parts(s).flatten() == s.skip(2),
        name_parts(s).len() > 0,
        forall|i: int| 0 <= i < name_parts(s).len() ==> (#[trigger] name_parts(s)[i]).len() > 0,
        forall|i: int| 0 < i < name_parts(s).len() ==> char_is_uppercase(#[trigger] name_parts(s)[i][0]),
        forall|i: int, k: int| 0 <= i < name_parts(s).len() && 1 <= k < name_parts(s)[i].len()
            ==> !char_is_uppercase(#[trigger] name_parts(s)[i][k]),
{
    lemma_split_words(s.skip(3), seq![s[2]]);
    assert(seq![s[2]] + s.skip(3) =~= s.skip(2));
}

/// Splits a Vulkan command name into its words: `"vkCreateDevice"` gives `["Create",
/// "Device"]`.
///
/// The name must start with `vk` and have a third character that takes one byte.
pub fn by_parts(s: &str) -> (r: Vec<String>)
    requires
        s@.len() >= 3,
        s@[0] == 'v',
        s@[1] == 'k',
        (s@[2] as u32) < 128,
    ensures
        r@.map_values(|w: String| w@) == name_parts(s@),
        forall|k: int| 3 <= k < s@.len() && (s@[k] as u32) < 128
            ==> (char_is_uppercase(#[trigger] s@[k]) <==> ('A' <= s@[k] && s@[k] <= 'Z')),
{
    let n = s.unicode_len();
    let mut current = String::new();
    push_char(&mut current, s.get_char(2));
    let mut result: Vec<String> = Vec::new();
    let mut i: usize = 3;
    while i < n
        invariant
            n == s@.len(),
            3 <= i <= n,
            result@.map_values(|w: String| w@) + split_words(s@.skip(i as int), current@) == name_parts(s@),
            forall|k: int| 3 <= k < i && (s@[k] as u32) < 128
                ==> (char_is_uppercase(#[trigger] s@[k]) <==> ('A' <= s@[k] && s@[k] <= 'Z')),
        decreases n - i,
    {
        let c = s.get_char(i);
        let ghost before = result@.map_values(|w: String| w@);
        let ghost cur = current@;
        proof {
            assert(s@.skip(i as int)[0] == c);
            assert(s@.skip(i as int).drop_first() =~= s@.skip(i + 1));
        }
        let upper = is_uppercase(c);
        proof {
            assert(s@[i as int] == c);
        }
        if upper {
            let mut word = String::new();
            push_char(&mut word, c);
            core::mem::swap(&mut current, &mut word);
            result.push(word);
            proof {
                assert(result@.map_values(|w: String| w@) =~= before.push(cur));
                assert(before + (seq![cur] + split_words(s@.skip(i + 1), seq![c])) =~= before.push(cur) + split_words(s@.skip(i + 1), seq![c]));
            }
        } else {
            push_char(&mut current, c);
            proof {
                assert(result@.map_values(|w: String| w@) =~= before);
            }
        }
        i = i + 1;
    }
    proof {
        assert(s@.skip(n as int) =~= Seq::<char>::empty());
    }
    if current.as_str().unicode_len() != 0 {
        let ghost before = result@.map_values(|w: String| w@);
        let ghost cur = current@;
        result.push(current);
        proof {
            assert(result@.map_values(|w: String| w@) =~= before.push(cur));
            assert(before + seq![cur] =~= before.push(cur));
        }
    } else {
        proof {
            assert(result@.map_values(|w: String| w@) + Seq::<Seq<char>>::empty() =~= result@.map_values(|w: String| w@));
        }
    }
    result
}


/// The words `words` written one after another with `sep` between each two.
pub open spec fn joined(words: Seq<Seq<char>>, sep: Seq<char>) -> Seq<char>
    decreases words.len(),
{
    if words.len() == 0 {
        Seq::empty()
    } else if words.len() == 1 {
        words[0]
    } else {
        joined(words.drop_last(), sep) + sep + words.last()
    }
}

/// The name of the constant that holds a command's name: its words in uppercase, joined by
/// `_` (`vkCreateDevice` gives `CREATE_DEVICE`).
pub open spec fn entry_const_name(name: Seq<char>) -> Seq<char> {
    joined(name_parts(name).map_values(|w: Seq<char>| str_uppercase(w)), seq!['_'])
}

/// The name of the field that holds a command's function: its words in lowercase, joined by
/// `_` (`vkCreateDevice` gives `create_device`).
pub open spec fn entry_field_name(name: Seq<char>) -> Seq<char> {
    joined(name_parts(name).map_values(|w: Seq<char>| str_lowercase(w)), seq!['_'])
}

/// Appends the characters of `src` to `dst`.
fn append(dst: &mut String, src: &str)
    ensures
        final(dst)@ == old(dst)@ + src@,
{
    let n = src.unicode_len();
    let mut i: usize = 0;
    while i < n
        invariant
            n == src@.len(),
            i <= n,
            dst@ == old(dst)@ + src@.take(i as int),
        decreases n - i,
    {
        let c = src.get_char(i);
        push_char(dst, c);
        proof {
            assert(src@.take(i + 1) =~= src@.take(i as int).push(c));
        }
        i = i + 1;
    }
    proof {
        assert(src@.take(n as int) =~= src@);
    }
}

/// The three names that loading a Vulkan command gives rise to: the constant that holds the
/// command's name (its words in uppercase joined by `_`), the field that holds the loaded
/// function (its words in lowercase joined by `_`), and the function's type (`Fn` followed by
/// the name without its `vk` prefix). `"vkCreateDevice"` gives `("CREATE_DEVICE",
/// "create_device", "FnCreateDevice")`.
///
/// The name must start with `vk` and have a third character that takes one byte.
pub fn entry_names(name: &str) -> (r: (String, String, String))
    requires
        name@.len() >= 3,
        name@[0] == 'v',
        name@[1] == 'k',
        (name@[2] as u32) < 128,
    ensures
        r.0@ == entry_const_name(name@),
        r.1@ == entry_field_name(name@),
        r.2@ == seq!['F', 'n'] + name@.skip(2),
        forall|i: int| 0 <= i < name_parts(name@).len() && all_ascii(#[trigger] name_parts(name@)[i]) ==> {
            &&& str_uppercase(name_parts(name@)[i]) == name_parts(name@)[i].map_values(|c: char| ascii_upper(c))
            &&& str_lowercase(name_parts(name@)[i]) == name_parts(name@)[i].map_values(|c: char| ascii_lower(c))
        },
{
    let words = by_parts(name);
    let ghost parts = name_parts(name@);
    proof {
        lemma_name_parts(name@);
        assert(words@.len() == parts.len());
    }
    let ghost ups = parts.map_values(|w: Seq<char>| str_uppercase(w));
    let ghost lows = parts.map_values(|w: Seq<char>| str_lowercase(w));
    let mut upper = String::new();
    let mut lower = String::new();
    let mut fn_type = String::new();
    push_char(&mut fn_type, 'F');
    push_char(&mut fn_type, 'n');
    let mut i: usize = 0;
    while i < words.len()
        invariant
            words@.map_values(|w: String| w@) == parts,
            i <= words@.len(),
            ups == parts.map_values(|w: Seq<char>| str_uppercase(w)),
            lows == parts.map_values(|w: Seq<char>| str_lowercase(w)),
            upper@ == joined(ups.take(i as int), seq!['_']),
            lower@ == joined(lows.take(i as int), seq!['_']),
            fn_type@ == seq!['F', 'n'] + parts.take(i as int).flatten(),
            parts == name_parts(name@),
            forall|j: int| 0 <= j < i && all_ascii(#[trigger] parts[j]) ==> {
                &&& str_uppercase(parts[j]) == parts[j].map_values(|c: char| ascii_upper(c))
                &&& str_lowercase(parts[j]) == parts[j].map_values(|c: char| ascii_lower(c))
            },
        decreases words@.len() - i,
    {
        let word = words[i].as_str();
        proof {
            assert(word@ == parts[i as int]);
        }
        if i > 0 {
            push_char(&mut upper, '_');
            push_char(&mut lower, '_');
        }
        let up = to_uppercase(word);
        let low = to_lowercase(word);
        append(&mut upper, up.as_str());
        append(&mut lower, low.as_str());
        append(&mut fn_type, word);
        proof {
            assert(ups.take(i + 1).drop_last() =~= ups.take(i as int));
            assert(lows.take(i + 1).drop_last() =~= lows.take(i as int));
            assert(ups.take(i + 1).last() == str_uppercase(parts[i as int]));
            assert(lows.take(i + 1).last() == str_lowercase(parts[i as int]));
            if i == 0 {
                assert(ups.take(0) =~= Seq::<Seq<char>>::empty());
                assert(lows.take(0) =~= Seq::<Seq<char>>::empty());
                assert(upper@ =~= ups.take(1)[0]);
                assert(lower@ =~= lows.take(1)[0]);
            } else {
                assert(upper@ =~= joined(ups.take(i as int), seq!['_']) + seq!['_'] + ups.take(i + 1).last());
                assert(lower@ =~= joined(lows.take(i as int), seq!['_']) + seq!['_'] + lows.take(i + 1).last());
            }
            assert(parts.take(i + 1).drop_last() =~= parts.take(i as int));
            parts.take(i as int).lemma_flatten_push(parts[i as int]);
            assert(parts.take(i as int).push(parts[i as int]) =~= parts.take(i + 1));
        }
        i = i + 1;
    }
    proof {
        assert(ups.take(words@.len() as int) =~= ups);
        assert(lows.take(words@.len() as int) =~= lows);
        assert(parts.take(words@.len() as int) =~= parts);
    }
    (upper, lower, fn_type)
}

} // verus!
