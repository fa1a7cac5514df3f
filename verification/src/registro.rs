//! The grammar of one line of the dataset: fields parted by commas, of which a
//! data record has exactly two, each taken without the white space around it.

use crate::erro::Erro;
use crate::texto::{aparado, aparar, caracteres};
use vstd::prelude::*;
use vstd::string::*;

verus! {

/// The position of the first comma of `s`, or the length of `s` where it has none.
pub open spec fn primeira_virgula(s: Seq<char>) -> int
    decreases s.len(),
{
    if s.len() == 0 || s.first() == ',' {
        0
    } else {
        1 + primeira_virgula(s.drop_first())
    }
}

/// The fields of `s`: the stretches between its commas, in order. A line
/// without a comma is one field; two commas in a row part an empty field.
pub open spec fn dividir(s: Seq<char>) -> Seq<Seq<char>>
    decreases s.len(),
{
    let k = primeira_virgula(s);
    if 0 <= k < s.len() {
        seq![s.take(k)] + dividir(s.skip(k + 1))
    } else {
        seq![s]
    }
}

/// How many commas `s` holds.
pub open spec fn virgulas(s: Seq<char>) -> nat
    decreases s.len(),
{
    if s.len() == 0 {
        0
    } else if s.first() == ',' {
        1 + virgulas(s.drop_first())
    } else {
        virgulas(s.drop_first())
    }
}

/// The fields joined again, with a comma between neighbours.
pub open spec fn juntar(campos: Seq<Seq<char>>) -> Seq<char>
    decreases campos.len(),
{
    if campos.len() == 0 {
        Seq::empty()
    } else if campos.len() == 1 {
        campos[0]
    } else {
        campos[0] + seq![','] + juntar(campos.drop_first())
    }
}

/// The texts of a vector of strings.
pub open spec fn textos(campos: Seq<String>) -> Seq<Seq<char>> {
    Seq::new(campos.len(), |i: int| campos[i]@)
}

/// `primeira_virgula(s)` is the one position up to which `s` has no comma and
/// at which it has one or ends.
pub proof fn lema_primeira_virgula(s: Seq<char>, k: int)
    requires
        0 <= k <= s.len(),
        forall|j: int| 0 <= j < k ==> s[j] != ',',
        k < s.len() ==> s[k] == ',',
    ensures
        primeira_virgula(s) == k,
    decreases k,
{
    if k > 0 {
        lema_primeira_virgula(s.drop_first(), k - 1);
    }
}

/// The first comma lies within the line or at its end, and nothing before it
/// is a comma.
pub proof fn lema_primeira_virgula_limites(s: Seq<char>)
    ensures
        0 <= primeira_virgula(s) <= s.len(),
        forall|j: int| 0 <= j < primeira_virgula(s) ==> s[j] != ',',
        primeira_virgula(s) < s.len() ==> s[primeira_virgula(s)] == ',',
    decreases s.len(),
{
    if s.len() > 0 && s.first() != ',' {
        lema_primeira_virgula_limites(s.drop_first());
        assert forall|j: int| 0 <= j < primeira_virgula(s) implies s[j] != ',' by {
            if j > 0 {
                assert(s[j] == s.drop_first()[j - 1]);
            }
        }
        assert(primeira_virgula(s) < s.len() ==> s[primeira_virgula(s)] == s.drop_first()[
            primeira_virgula(s) - 1]);
    }
}

/// Text without a comma up to the position `k` holds as many commas as what
/// follows that position.
proof fn lema_virgulas_adiante(s: Seq<char>, k: int)
    requires
        0 <= k <= s.len(),
        forall|j: int| 0 <= j < k ==> s[j] != ',',
    ensures
        virgulas(s) == virgulas(s.skip(k)),
    decreases k,
{
    if k > 0 {
        lema_virgulas_adiante(s.drop_first(), k - 1);
        assert(s.drop_first().skip(k - 1) =~= s.skip(k));
    } else {
        assert(s.skip(0) =~= s);
    }
}

/// A line has one field more than it has commas: a data record is a line
/// with exactly one comma.
pub proof fn lema_quantidade_de_campos(s: Seq<char>)
    ensures
        dividir(s).len() == virgulas(s) + 1,
        eh_registro(s) <==> virgulas(s) == 1,
    decreases s.len(),
{
    lema_primeira_virgula_limites(s);
    let k = primeira_virgula(s);
    lema_virgulas_adiante(s, k);
    if 0 <= k < s.len() {
        lema_quantidade_de_campos(s.skip(k + 1));
        assert(s.skip(k).drop_first() =~= s.skip(k + 1));
    } else {
        assert(s.skip(k) =~= Seq::<char>::empty());
    }
}

/// No field holds a comma, and there is always at least one field.
pub proof fn lema_campos_sem_virgula(s: Seq<char>)
    ensures
        dividir(s).len() >= 1,
        forall|i: int, j: int|
            0 <= i < dividir(s).len() && 0 <= j < dividir(s)[i].len() ==> dividir(s)[i][j] != ',',
    decreases s.len(),
{
    lema_primeira_virgula_limites(s);
    let k = primeira_virgula(s);
    if 0 <= k < s.len() {
        lema_campos_sem_virgula(s.skip(k + 1));
        assert forall|i: int, j: int|
            0 <= i < dividir(s).len() && 0 <= j < dividir(s)[i].len() implies dividir(s)[i][j]
            != ',' by {
            if i > 0 {
                assert(dividir(s)[i] == dividir(s.skip(k + 1))[i - 1]);
            }
        }
    }
}

/// Joining the fields of a line gives the line back: nothing but the commas
/// is lost in dividing it.
pub proof fn lema_juntar_dividir(s: Seq<char>)
    ensures
        juntar(dividir(s)) == s,
    decreases s.len(),
{
    lema_primeira_virgula_limites(s);
    let k = primeira_virgula(s);
    if 0 <= k < s.len() {
        let resto = s.skip(k + 1);
        lema_juntar_dividir(resto);
        lema_campos_sem_virgula(resto);
        assert(dividir(s).drop_first() =~= dividir(resto));
        assert(dividir(s)[0] == s.take(k));
        assert(s.take(k) + seq![','] + resto =~= s);
    } else {
        assert(dividir(s) =~= seq![s]);
    }
}

/// Parts a line at its commas.
pub fn separar_campos(linha: &str) -> (campos: Vec<String>)
    ensures
        textos(campos@) == dividir(linha@),
{
    let v = caracteres(linha);
    let n: usize = v.len();
    let mut campos: Vec<String> = Vec::new();
    let mut atual = String::new();
    let mut inicio: usize = 0;
    let mut i: usize = 0;
    assert(linha@.skip(0) =~= linha@);
    assert(textos(campos@) + dividir(linha@.skip(0)) =~= dividir(linha@));
    assert(linha@.subrange(0, 0) =~= Seq::<char>::empty());
    while i < n
        invariant
            v@ == linha@,
            n == v.len(),
            inicio <= i <= n,
            forall|j: int| inicio <= j < i ==> linha@[j] != ',',
            atual@ == linha@.subrange(inicio as int, i as int),
            dividir(linha@) == textos(campos@) + dividir(linha@.skip(inicio as int)),
        decreases n - i,
    {
        let c = v[i];
        if c == ',' {
            proof {
                let resto = linha@.skip(inicio as int);
                lema_primeira_virgula(resto, i - inicio);
                assert(resto.take(i - inicio) =~= atual@);
                assert(resto.skip(i - inicio + 1) =~= linha@.skip(i + 1));
                assert(textos(campos@.push(atual)) =~= textos(campos@) + seq![atual@]);
            }
            campos.push(atual);
            atual = String::new();
            inicio = i + 1;
            assert(linha@.subrange(inicio as int, inicio as int) =~= Seq::<char>::empty());
        } else {
            atual.push(c);
            assert(atual@ =~= linha@.subrange(inicio as int, i + 1));
        }
        i += 1;
    }
    proof {
        let resto = linha@.skip(inicio as int);
        lema_primeira_virgula(resto, n - inicio);
        assert(resto =~= atual@);
        assert(textos(campos@.push(atual)) =~= textos(campos@) + seq![atual@]);
    }
    campos.push(atual);
    campos
}

/// A data record as the line holds it: its two fields, trimmed and not yet
/// converted to numbers.
#[derive(Clone, Debug, PartialEq, Eq)]
pub struct Registro {
    /// The text of the independent variable.
    pub tempo: String,
    /// The text of the dependent variable.
    pub valor: String,
}

/// Whether a line is a data record: whether it has exactly two fields.
pub open spec fn eh_registro(linha: Seq<char>) -> bool {
    dividir(linha).len() == 2
}

/// Reads a line as a data record of the source `fonte`.
///
/// A line of exactly two fields gives the record of the two, each without the
/// white space around it. Any other line is refused as malformed, with the
/// number of fields that it has.
pub fn analisar_linha(fonte: &str, linha: &str) -> (r: Result<Registro, Erro>)
    ensures
        (match r {
            Ok(registro) => {
                &&& eh_registro(linha@)
                &&& registro.tempo@ == aparado(dividir(linha@)[0])
                &&& registro.valor@ == aparado(dividir(linha@)[1])
            },
            Err(Erro::RegistroMalformado { fonte: origem, colunas }) => {
                &&& !eh_registro(linha@)
                &&& origem@ == fonte@
                &&& colunas == dividir(linha@).len()
            },
            Err(_) => false,
        }),
{
    let campos = separar_campos(linha);
    if campos.len() != 2 {
        return Err(
            Erro::RegistroMalformado { fonte: String::from_str(fonte), colunas: campos.len() },
        );
    }
    assert(textos(campos@)[0] == campos[0]@);
    assert(textos(campos@)[1] == campos[1]@);
    let tempo = aparar(campos[0].as_str());
    let valor = aparar(campos[1].as_str());
    Ok(Registro { tempo, valor })
}

} // verus!
