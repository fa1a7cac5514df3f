//! The failures that the loader and the statistics report, and their messages.

use crate::texto::{anexar_numeral, numeral};
use vstd::prelude::*;
use vstd::string::*;

verus! {

/// A computation of the statistics.
#[derive(Clone, Copy, Debug, PartialEq, Eq)]
pub enum Calculo {
    /// The arithmetic mean of one series.
    Media,
    /// The least-squares fit of `y` against `x`.
    Regressao,
    /// The coefficient of determination.
    RQuadrado,
    /// The mean squared error.
    Mse,
}

/// A series that a computation takes.
#[derive(Clone, Copy, Debug, PartialEq, Eq)]
pub enum Serie {
    /// The independent variable of a fit.
    X,
    /// The dependent variable of a fit.
    Y,
    /// The observed values that a metric scores against.
    YReal,
    /// The predicted values that a metric scores.
    YPrevisto,
}

/// A column of a data record.
#[derive(Clone, Copy, Debug, PartialEq, Eq)]
pub enum Campo {
    /// The first column: the independent variable.
    Tempo,
    /// The second column: the dependent variable.
    Valor,
}

/// Why an operation did not produce a result.
#[derive(Clone, Debug, PartialEq, Eq)]
pub enum Erro {
    /// A series that must hold at least one value holds none.
    EntradaVazia { calculo: Calculo },
    /// The source `fonte` could not be opened; `causa` is the system's account.
    FonteIndisponivel { fonte: String, causa: String },
    /// A data record of `fonte` has `colunas` fields, not two.
    RegistroMalformado { fonte: String, colunas: usize },
    /// The field `campo` of a record of `fonte` holds `texto`, which is no number.
    NumeroInvalido { fonte: String, campo: Campo, texto: String },
    /// Reading `fonte` failed part of the way; `causa` is the system's account.
    FalhaDeLeitura { fonte: String, causa: String },
    /// The source `fonte` holds no data record.
    DatasetVazio { fonte: String },
    /// Two series that must be equally long are not.
    ComprimentoDiferente { primeira: Serie, segunda: Serie },
    /// A computation that needs two points got fewer.
    DadosInsuficientes { calculo: Calculo },
    /// The independent variable is constant, so no line fits best.
    VarianciaNula,
    /// The observed values are constant and the prediction misses them.
    MetricaIndefinida,
}

impl Serie {
    /// The name under which messages speak of the series.
    pub open spec fn nome(&self) -> Seq<char> {
        match self {
            Serie::X => "x"@,
            Serie::Y => "y"@,
            Serie::YReal => "y_real"@,
            Serie::YPrevisto => "y_previsto"@,
        }
    }

    fn nome_exec(&self) -> (r: &'static str)
        ensures
            r@ == self.nome(),
    {
        match self {
            Serie::X => "x",
            Serie::Y => "y",
            Serie::YReal => "y_real",
            Serie::YPrevisto => "y_previsto",
        }
    }
}

impl Calculo {
    /// What the computation sets out to do, as messages put it.
    pub open spec fn finalidade(&self) -> Seq<char> {
        match self {
            Calculo::Media => "calcular a média"@,
            Calculo::Regressao => "realizar a regressão linear"@,
            Calculo::RQuadrado => "calcular o R²"@,
            Calculo::Mse => "calcular o MSE"@,
        }
    }

    fn finalidade_exec(&self) -> (r: &'static str)
        ensures
            r@ == self.finalidade(),
    {
        match self {
            Calculo::Media => "calcular a média",
            Calculo::Regressao => "realizar a regressão linear",
            Calculo::RQuadrado => "calcular o R²",
            Calculo::Mse => "calcular o MSE",
        }
    }
}

impl Erro {
    /// The message of the failure, with the source and the offending value
    /// where it has them.
    pub open spec fn texto(&self) -> Seq<char> {
        match self {
            Erro::EntradaVazia { calculo } => match calculo {
                Calculo::Mse => "Os arrays 'y_real' e 'y_previsto' não podem estar vazios"@,
                _ => "Não é possível calcular a média de um array vazio"@,
            },
            Erro::FonteIndisponivel { fonte, causa } => "Erro ao abrir o arquivo '"@ + fonte@
                + "': "@ + causa@,
            Erro::RegistroMalformado { fonte, colunas } => "Formato de linha inválido em '"@
                + fonte@ + "': Esperava 2 colunas, encontrou "@ + numeral(*colunas as nat),
            Erro::NumeroInvalido { fonte, campo, texto } => match campo {
                Campo::Tempo => "Erro ao converter o valor de tempo '"@ + texto@
                    + "' para número em '"@ + fonte@ + "'"@,
                Campo::Valor => "Erro ao converter o valor da série '"@ + texto@
                    + "' para número em '"@ + fonte@ + "'"@,
            },
            Erro::FalhaDeLeitura { fonte, causa } => "Erro ao ler uma linha do arquivo '"@
                + fonte@ + "': "@ + causa@,
            Erro::DatasetVazio { fonte } => "Nenhum dado válido encontrado no arquivo '"@ + fonte@
                + "'"@,
            Erro::ComprimentoDiferente { primeira, segunda } => "Os arrays '"@ + primeira.nome()
                + "' e '"@ + segunda.nome() + "' devem ter o mesmo comprimento"@,
            Erro::DadosInsuficientes { calculo } =>
                "São necessários pelo menos dois pontos de dados para "@ + calculo.finalidade(),
            Erro::VarianciaNula =>
                "Não é possível calcular a regressão linear (variância de x é zero)"@,
            Erro::MetricaIndefinida =>
                "Não é possível calcular o R² (variância de y_real é zero e erro não é zero)"@,
        }
    }

    /// Writes the message of the failure.
    pub fn mensagem(&self) -> (r: String)
        ensures
            r@ == self.texto(),
    {
        match self {
            Erro::EntradaVazia { calculo } => match calculo {
                Calculo::Mse => String::from_str(
                    "Os arrays 'y_real' e 'y_previsto' não podem estar vazios",
                ),
                _ => String::from_str("Não é possível calcular a média de um array vazio"),
            },
            Erro::FonteIndisponivel { fonte, causa } => {
                let mut r = String::from_str("Erro ao abrir o arquivo '");
                r.append(fonte.as_str());
                r.append("': ");
                r.append(causa.as_str());
                r
            },
            Erro::RegistroMalformado { fonte, colunas } => {
                let mut r = String::from_str("Formato de linha inválido em '");
                r.append(fonte.as_str());
                r.append("': Esperava 2 colunas, encontrou ");
                anexar_numeral(&mut r, *colunas);
                r
            },
            Erro::NumeroInvalido { fonte, campo, texto } => {
                let mut r = match campo {
                    Campo::Tempo => String::from_str("Erro ao converter o valor de tempo '"),
                    Campo::Valor => String::from_str("Erro ao converter o valor da série '"),
                };
                r.append(texto.as_str());
                r.append("' para número em '");
                r.append(fonte.as_str());
                r.append("'");
                r
            },
            Erro::FalhaDeLeitura { fonte, causa } => {
                let mut r = String::from_str("Erro ao ler uma linha do arquivo '");
                r.append(fonte.as_str());
                r.append("': ");
                r.append(causa.as_str());
                r
            },
            Erro::DatasetVazio { fonte } => {
                let mut r = String::from_str("Nenhum dado válido encontrado no arquivo '");
                r.append(fonte.as_str());
                r.append("'");
                r
            },
            Erro::ComprimentoDiferente { primeira, segunda } => {
                let mut r = String::from_str("Os arrays '");
                r.append(primeira.nome_exec());
                r.append("' e '");
                r.append(segunda.nome_exec());
                r.append("' devem ter o mesmo comprimento");
                r
            },
            Erro::DadosInsuficientes { calculo } => {
                let mut r = String::from_str(
                    "São necessários pelo menos dois pontos de dados para ",
                );
                r.append(calculo.finalidade_exec());
                r
            },
            Erro::VarianciaNula => String::from_str(
                "Não é possível calcular a regressão linear (variância de x é zero)",
            ),
            Erro::MetricaIndefinida => String::from_str(
                "Não é possível calcular o R² (variância de y_real é zero e erro não é zero)",
            ),
        }
    }
}

} // verus!
