//! What each statistic asks of its input before any arithmetic is done, and
//! how the coefficient of determination treats a constant series.
//!
//! The sums themselves are the caller's: they are taken in floating point.
//! The rules that decide whether a result is owed at all speak only of
//! lengths and of which sums vanished, and are settled here.

use crate::erro::{Calculo, Erro, Serie};
use vstd::prelude::*;

verus! {

/// Whether a series of `n` values has a mean.
pub open spec fn admissao_media(n: nat) -> Result<(), Erro> {
    if n == 0 {
        Err(Erro::EntradaVazia { calculo: Calculo::Media })
    } else {
        Ok(())
    }
}

/// Whether `n_x` values of `x` and `n_y` values of `y` can be fitted.
pub open spec fn admissao_regressao(n_x: nat, n_y: nat) -> Result<(), Erro> {
    if n_x != n_y {
        Err(Erro::ComprimentoDiferente { primeira: Serie::X, segunda: Serie::Y })
    } else if n_x < 2 {
        Err(Erro::DadosInsuficientes { calculo: Calculo::Regressao })
    } else {
        Ok(())
    }
}

/// Whether `n_real` observed and `n_previsto` predicted values have a
/// coefficient of determination.
pub open spec fn admissao_r_quadrado(n_real: nat, n_previsto: nat) -> Result<(), Erro> {
    if n_real != n_previsto {
        Err(Erro::ComprimentoDiferente { primeira: Serie::YReal, segunda: Serie::YPrevisto })
    } else if n_real < 2 {
        Err(Erro::DadosInsuficientes { calculo: Calculo::RQuadrado })
    } else {
        Ok(())
    }
}

/// Whether `n_real` observed and `n_previsto` predicted values have a mean
/// squared error.
pub open spec fn admissao_mse(n_real: nat, n_previsto: nat) -> Result<(), Erro> {
    if n_real != n_previsto {
        Err(Erro::ComprimentoDiferente { primeira: Serie::YReal, segunda: Serie::YPrevisto })
    } else if n_real == 0 {
        Err(Erro::EntradaVazia { calculo: Calculo::Mse })
    } else {
        Ok(())
    }
}

/// How the coefficient of determination is to be had from its two sums.
#[derive(Clone, Copy, Debug, PartialEq, Eq)]
pub enum Ajuste {
    /// Both sums vanish: the fit is perfect, and the coefficient is one.
    Perfeito,
    /// The total sum of squares does not vanish: the coefficient is one less
    /// the ratio of the error sum to it.
    Razao,
}

/// The treatment of the two sums, given which of them vanished.
pub open spec fn tratamento_r_quadrado(total_nulo: bool, erro_nulo: bool) -> Result<Ajuste, Erro> {
    if !total_nulo {
        Ok(Ajuste::Razao)
    } else if erro_nulo {
        Ok(Ajuste::Perfeito)
    } else {
        Err(Erro::MetricaIndefinida)
    }
}

/// Admits a series of `n` values to the mean: it must not be empty.
pub fn validar_media(n: usize) -> (r: Result<(), Erro>)
    ensures
        r == admissao_media(n as nat),
{
    if n == 0 {
        return Err(Erro::EntradaVazia { calculo: Calculo::Media });
    }
    Ok(())
}

/// Admits two series to the fit: they must be equally long, and hold at
/// least two points. A difference in length is reported before a want of
/// points.
pub fn validar_regressao(n_x: usize, n_y: usize) -> (r: Result<(), Erro>)
    ensures
        r == admissao_regressao(n_x as nat, n_y as nat),
{
    if n_x != n_y {
        return Err(Erro::ComprimentoDiferente { primeira: Serie::X, segunda: Serie::Y });
    }
    if n_x < 2 {
        return Err(Erro::DadosInsuficientes { calculo: Calculo::Regressao });
    }
    Ok(())
}

/// Admits observed and predicted values to the coefficient of
/// determination: equally many of each, and at least two.
pub fn validar_r_quadrado(n_real: usize, n_previsto: usize) -> (r: Result<(), Erro>)
    ensures
        r == admissao_r_quadrado(n_real as nat, n_previsto as nat),
{
    if n_real != n_previsto {
        return Err(
            Erro::ComprimentoDiferente { primeira: Serie::YReal, segunda: Serie::YPrevisto },
        );
    }
    if n_real < 2 {
        return Err(Erro::DadosInsuficientes { calculo: Calculo::RQuadrado });
    }
    Ok(())
}

/// Admits observed and predicted values to the mean squared error: equally
/// many of each, and at least one.
pub fn validar_mse(n_real: usize, n_previsto: usize) -> (r: Result<(), Erro>)
    ensures
        r == admissao_mse(n_real as nat, n_previsto as nat),
{
    if n_real != n_previsto {
        return Err(
            Erro::ComprimentoDiferente { primeira: Serie::YReal, segunda: Serie::YPrevisto },
        );
    }
    if n_real == 0 {
        return Err(Erro::EntradaVazia { calculo: Calculo::Mse });
    }
    Ok(())
}

/// Decides how the coefficient of determination follows from its sums.
///
/// `total_nulo` says that the total sum of squares vanished, that is, that
/// the observed values are constant; `erro_nulo` says the same of the error
/// sum of squares. A constant series that the prediction misses has no
/// coefficient.
pub fn classificar_r_quadrado(total_nulo: bool, erro_nulo: bool) -> (r: Result<Ajuste, Erro>)
    ensures
        r == tratamento_r_quadrado(total_nulo, erro_nulo),
{
    if !total_nulo {
        Ok(Ajuste::Razao)
    } else if erro_nulo {
        Ok(Ajuste::Perfeito)
    } else {
        Err(Erro::MetricaIndefinida)
    }
}

/// Series that are admitted to a fit or to a coefficient of determination
/// are admitted to the mean as well: the mean taken within either cannot
/// fail.
pub proof fn lema_media_admitida(n_a: nat, n_b: nat)
    ensures
        admissao_regressao(n_a, n_b) is Ok ==> admissao_media(n_a) is Ok && admissao_media(n_b) is Ok,
        admissao_r_quadrado(n_a, n_b) is Ok ==> admissao_media(n_a) is Ok,
        admissao_r_quadrado(n_a, n_b) is Ok ==> admissao_mse(n_a, n_b) is Ok,
{
}

} // verus!
