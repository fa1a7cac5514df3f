//! Text primitives over sequences of characters: trimming and decimal numerals.

use vstd::prelude::*;
use vstd::string::*;

verus! {

/// Whether `c` is white space in the sense of `char::is_whitespace`, that is,
/// whether it carries the Unicode property `White_Space`.
pub uninterp spec fn espaco_em_branco(c: char) -> bool;

/// `char::is_whitespace` is a function of the character alone; its answer is
/// what `espaco_em_branco` names.
pub assume_specification[ char::is_whitespace ](c: char) -> (b: bool)
    ensures
        b == espaco_em_branco(c),
;

/// `String::push` appends the character to the end of the string.
pub assume_specification[ String::push ](s: &mut String, c: char)
    ensures
        final(s)@ == old(s)@.push(c),
;

/// `s` without its leading white space.
pub open spec fn sem_espaco_inicial(s: Seq<char>) -> Seq<char>
    decreases s.len(),
{
    if s.len() > 0 && espaco_em_branco(s.first()) {
        sem_espaco_inicial(s.drop_first())
    } else {
        s
    }
}

/// `s` without its trailing white space.
pub open spec fn sem_espaco_final(s: Seq<char>) -> Seq<char>
    decreases s.len(),
{
    if s.len() > 0 && espaco_em_branco(s.last()) {
        sem_espaco_final(s.drop_last())
    } else {
        s
    }
}

/// `s` without the white space that surrounds it.
pub open spec fn aparado(s: Seq<char>) -> Seq<char> {
    sem_espaco_final(sem_espaco_inicial(s))
}

/// How much of `s` is left without its leading white space: all of it from
/// some position on, before which there is only white space and at which
/// there is none.
pub proof fn lema_sem_espaco_inicial(s: Seq<char>) -> (i: int)
    ensures
        0 <= i <= s.len(),
        sem_espaco_inicial(s) == s.skip(i),
        forall|k: int| 0 <= k < i ==> espaco_em_branco(s[k]),
        i < s.len() ==> !espaco_em_branco(s[i]),
    decreases s.len(),
{
    if s.len() > 0 && espaco_em_branco(s.first()) {
        let resto = s.drop_first();
        let i = lema_sem_espaco_inicial(resto);
        assert(resto.skip(i) =~= s.skip(i + 1));
        assert forall|k: int| 0 <= k < i + 1 implies espaco_em_branco(s[k]) by {
            if k > 0 {
                assert(s[k] == resto[k - 1]);
            }
        }
        assert(i + 1 < s.len() ==> s[i + 1] == resto[i]);
        i + 1
    } else {
        assert(s.skip(0) =~= s);
        0
    }
}

/// How much of `s` is left without its trailing white space: all of it up to
/// some position, from which on there is only white space and before which
/// there is none.
pub proof fn lema_sem_espaco_final(s: Seq<char>) -> (j: int)
    ensures
        0 <= j <= s.len(),
        sem_espaco_final(s) == s.take(j),
        forall|k: int| j <= k < s.len() ==> espaco_em_branco(s[k]),
        j > 0 ==> !espaco_em_branco(s[j - 1]),
    decreases s.len(),
{
    if s.len() > 0 && espaco_em_branco(s.last()) {
        let resto = s.drop_last();
        let j = lema_sem_espaco_final(resto);
        assert(resto.take(j) =~= s.take(j));
        assert forall|k: int| j <= k < s.len() implies espaco_em_branco(s[k]) by {
            if k < s.len() - 1 {
                assert(s[k] == resto[k]);
            }
        }
        assert(j > 0 ==> s[j - 1] == resto[j - 1]);
        j
    } else {
        assert(s.take(s.len() as int) =~= s);
        s.len() as int
    }
}

/// Trimming keeps one stretch of the text and drops only white space: what
/// is left begins and ends with a character that is none, or is empty.
pub proof fn lema_aparado(s: Seq<char>) -> (trecho: (int, int))
    ensures
        0 <= trecho.0 <= trecho.1 <= s.len(),
        aparado(s) == s.subrange(trecho.0, trecho.1),
        forall|k: int| 0 <= k < trecho.0 ==> espaco_em_branco(s[k]),
        forall|k: int| trecho.1 <= k < s.len() ==> espaco_em_branco(s[k]),
        trecho.0 < trecho.1 ==> !espaco_em_branco(s[trecho.0]) && !espaco_em_branco(
            s[trecho.1 - 1],
        ),
{
    let i = lema_sem_espaco_inicial(s);
    let t = s.skip(i);
    let j = lema_sem_espaco_final(t);
    assert(t.take(j) =~= s.subrange(i, i + j));
    assert forall|k: int| i + j <= k < s.len() implies espaco_em_branco(s[k]) by {
        assert(s[k] == t[k - i]);
    }
    assert(j > 0 ==> s[i + j - 1] == t[j - 1]);
    (i, i + j)
}

/// Text that has been trimmed is left as it is by trimming it again.
pub proof fn lema_aparado_idempotente(s: Seq<char>)
    ensures
        aparado(aparado(s)) == aparado(s),
{
    let (i, j) = lema_aparado(s);
    let t = aparado(s);
    if t.len() > 0 {
        assert(t.first() == s[i]);
        assert(t.last() == s[j - 1]);
    }
}

/// The characters of `s`, in order.
pub fn caracteres(s: &str) -> (v: Vec<char>)
    ensures
        v@ == s@,
{
    let mut v: Vec<char> = Vec::new();
    for c in it: s.chars()
        invariant
            it.seq() == s@,
            v@ == it.seq().take(it.index()),
    {
        v.push(c);
    }
    assert(v@ =~= s@);
    v
}

/// Removes the white space around `s`.
pub fn aparar(s: &str) -> (r: String)
    ensures
        r@ == aparado(s@),
{
    let v = caracteres(s);
    let n: usize = v.len();
    let mut i: usize = 0;
    assert(s@.skip(0) =~= s@);
    while i < n && v[i].is_whitespace()
        invariant
            v@ == s@,
            n == v.len(),
            i <= n,
            sem_espaco_inicial(s@) == sem_espaco_inicial(s@.skip(i as int)),
        decreases n - i,
    {
        assert(s@.skip(i as int).drop_first() =~= s@.skip(i as int + 1));
        i += 1;
    }
    assert(sem_espaco_inicial(s@) == s@.skip(i as int));
    let ghost t = s@.skip(i as int);
    let mut j: usize = n;
    assert(s@.subrange(i as int, j as int) =~= t);
    while j > i && v[j - 1].is_whitespace()
        invariant
            v@ == s@,
            n == v.len(),
            i <= j <= n,
            sem_espaco_final(t) == sem_espaco_final(s@.subrange(i as int, j as int)),
        decreases j - i,
    {
        assert(s@.subrange(i as int, j as int).drop_last() =~= s@.subrange(i as int, j - 1));
        j -= 1;
    }
    String::from_str(s.substring_char(i, j))
}

/// The character of the decimal digit `d`.
pub open spec fn digito(d: nat) -> char
    recommends
        d < 10,
{
    ((48 + d) as u8) as char
}

/// The decimal numeral of `n`: no sign, no leading zero but for zero itself.
pub open spec fn numeral(n: nat) -> Seq<char>
    decreases n,
{
    if n < 10 {
        seq![digito(n)]
    } else {
        numeral(n / 10).push(digito(n % 10))
    }
}

/// Appends the decimal numeral of `n` to `s`.
pub fn anexar_numeral(s: &mut String, n: usize)
    ensures
        final(s)@ == old(s)@ + numeral(n as nat),
    decreases n,
{
    if n >= 10 {
        anexar_numeral(s, n / 10);
    }
    let d: u8 = (n % 10) as u8;
    s.push((48u8 + d) as char);
    assert(final(s)@ =~= old(s)@ + numeral(n as nat));
}

} // verus!
