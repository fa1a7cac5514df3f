//! The loader's decisions, line by line.
//!
//! Reading the source and turning a field into a number are the caller's
//! part. What to do with each line, and whether the source held any data at
//! all, is decided here: the caller hands over the lines in the order in which
//! it reads them, acts on each answer, and asks for the verdict at the end.

use crate::erro::{Campo, Erro};
use crate::registro::{analisar_linha, dividir, eh_registro, Registro};
use crate::texto::aparado;
use vstd::prelude::*;
use vstd::string::*;

verus! {

/// What the caller is to do with the line it handed over.
#[derive(Clone, Debug, PartialEq, Eq)]
pub enum Passo {
    /// The line is the header: there is nothing to convert.
    Cabecalho,
    /// The line is a data record: its two fields are to be converted.
    Registro(Registro),
    /// The line is no data record: the load ends with this failure.
    Falha(Erro),
}

/// How many data records there are among `linhas`: the lines after the first
/// that have exactly two fields.
pub open spec fn registros_em(linhas: Seq<Seq<char>>) -> nat
    decreases linhas.len(),
{
    if linhas.len() <= 1 {
        0
    } else if eh_registro(linhas.last()) {
        registros_em(linhas.drop_last()) + 1
    } else {
        registros_em(linhas.drop_last())
    }
}

/// What a load has seen of its source.
struct Progresso {
    cabecalho_visto: bool,
    registro_visto: bool,
    linhas: Ghost<Seq<Seq<char>>>,
}

/// The state of one load: the source's name and what has been seen of it.
pub struct Leitor {
    fonte: String,
    progresso: Progresso,
}

impl View for Leitor {
    type V = Seq<Seq<char>>;

    /// The lines received so far, in order.
    closed spec fn view(&self) -> Seq<Seq<char>> {
        self.progresso.linhas@
    }
}

impl Leitor {
    #[verifier::type_invariant]
    spec fn coerente(&self) -> bool {
        &&& self.progresso.cabecalho_visto == (self.progresso.linhas@.len() > 0)
        &&& self.progresso.registro_visto == (registros_em(self.progresso.linhas@) > 0)
    }

    /// The name of the source, as failures report it.
    pub closed spec fn fonte(&self) -> Seq<char> {
        self.fonte@
    }

    /// Starts a load of the source `fonte`, of which no line has been read.
    pub fn novo(fonte: &str) -> (leitor: Leitor)
        ensures
            leitor.fonte() == fonte@,
            leitor@ == Seq::<Seq<char>>::empty(),
    {
        Leitor {
            fonte: String::from_str(fonte),
            progresso: Progresso {
                cabecalho_visto: false,
                registro_visto: false,
                linhas: Ghost(Seq::empty()),
            },
        }
    }

    /// Takes the next line of the source and says what to do with it.
    ///
    /// The first line is the header, whatever it holds. Every later line is a
    /// data record if it has exactly two fields, and a failure otherwise.
    pub fn receber_linha(&mut self, linha: &str) -> (passo: Passo)
        ensures
            final(self)@ == old(self)@.push(linha@),
            final(self).fonte() == old(self).fonte(),
            registros_em(final(self)@) == registros_em(old(self)@) + (if passo is Registro {
                1nat
            } else {
                0nat
            }),
            (match passo {
                Passo::Cabecalho => old(self)@.len() == 0,
                Passo::Registro(registro) => {
                    &&& old(self)@.len() > 0
                    &&& eh_registro(linha@)
                    &&& registro.tempo@ == aparado(dividir(linha@)[0])
                    &&& registro.valor@ == aparado(dividir(linha@)[1])
                },
                Passo::Falha(Erro::RegistroMalformado { fonte, colunas }) => {
                    &&& old(self)@.len() > 0
                    &&& !eh_registro(linha@)
                    &&& fonte@ == old(self).fonte()
                    &&& colunas == dividir(linha@).len()
                },
                Passo::Falha(_) => false,
            }),
    {
        proof {
            use_type_invariant(&*self);
        }
        let ghost antes = self.progresso.linhas@;
        let ghost depois = antes.push(linha@);
        assert(depois.drop_last() =~= antes);
        let registro_visto = self.progresso.registro_visto;
        if !self.progresso.cabecalho_visto {
            self.progresso = Progresso {
                cabecalho_visto: true,
                registro_visto,
                linhas: Ghost(depois),
            };
            return Passo::Cabecalho;
        }
        match analisar_linha(self.fonte.as_str(), linha) {
            Ok(registro) => {
                self.progresso = Progresso {
                    cabecalho_visto: true,
                    registro_visto: true,
                    linhas: Ghost(depois),
                };
                Passo::Registro(registro)
            },
            Err(erro) => {
                self.progresso = Progresso {
                    cabecalho_visto: true,
                    registro_visto,
                    linhas: Ghost(depois),
                };
                Passo::Falha(erro)
            },
        }
    }

    /// The failure of a load whose record holds, in the field `campo`, the
    /// text `texto` that could not be converted to a number.
    pub fn numero_invalido(&self, campo: Campo, texto: &str) -> (erro: Erro)
        ensures
            (match erro {
                Erro::NumeroInvalido { fonte, campo: qual, texto: lido } => {
                    &&& fonte@ == self.fonte()
                    &&& qual == campo
                    &&& lido@ == texto@
                },
                _ => false,
            }),
    {
        Erro::NumeroInvalido { fonte: self.fonte.clone(), campo, texto: String::from_str(texto) }
    }

    /// The failure of a load whose source could not be read to its end;
    /// `causa` is the system's account of what went wrong.
    pub fn falha_de_leitura(&self, causa: &str) -> (erro: Erro)
        ensures
            (match erro {
                Erro::FalhaDeLeitura { fonte, causa: relato } => {
                    &&& fonte@ == self.fonte()
                    &&& relato@ == causa@
                },
                _ => false,
            }),
    {
        Erro::FalhaDeLeitura { fonte: self.fonte.clone(), causa: String::from_str(causa) }
    }

    /// The verdict at the end of the source: a load that met no data record
    /// fails, whether the source was empty or held only its header.
    pub fn concluir(&self) -> (r: Result<(), Erro>)
        ensures
            (match r {
                Ok(_) => registros_em(self@) > 0,
                Err(Erro::DatasetVazio { fonte }) => {
                    &&& registros_em(self@) == 0
                    &&& fonte@ == self.fonte()
                },
                Err(_) => false,
            }),
    {
        proof {
            use_type_invariant(self);
        }
        if self.progresso.registro_visto {
            Ok(())
        } else {
            Err(Erro::DatasetVazio { fonte: self.fonte.clone() })
        }
    }
}

/// Among the lines of a source, at most all but the first are data records.
pub proof fn lema_registros_limite(linhas: Seq<Seq<char>>)
    ensures
        linhas.len() >= 1 ==> registros_em(linhas) <= linhas.len() - 1,
        linhas.len() == 0 ==> registros_em(linhas) == 0,
    decreases linhas.len(),
{
    if linhas.len() > 1 {
        lema_registros_limite(linhas.drop_last());
    }
}

/// A source whose every line after the header has two fields holds one data
/// record for each of those lines.
pub proof fn lema_um_registro_por_linha(linhas: Seq<Seq<char>>)
    requires
        linhas.len() >= 1,
        forall|i: int| 1 <= i < linhas.len() ==> eh_registro(#[trigger] linhas[i]),
    ensures
        registros_em(linhas) == linhas.len() - 1,
    decreases linhas.len(),
{
    if linhas.len() > 1 {
        let antes = linhas.drop_last();
        assert forall|i: int| 1 <= i < antes.len() implies eh_registro(#[trigger] antes[i]) by {
            assert(antes[i] == linhas[i]);
        }
        lema_um_registro_por_linha(antes);
    }
}

} // verus!
