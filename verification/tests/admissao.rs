use regressao_linear::admissao::{
    classificar_r_quadrado, validar_media, validar_mse, validar_r_quadrado, validar_regressao,
    Ajuste,
};
use regressao_linear::erro::{Calculo, Erro, Serie};

#[test]
fn test_regressao_tamanhos_diferentes() {
    let x = [1.0, 2.0, 3.0];
    let y = [4.0, 5.0];
    let resultado = validar_regressao(x.len(), y.len());
    assert!(resultado.is_err());
    assert_eq!(
        resultado.unwrap_err().mensagem(),
        "Os arrays 'x' e 'y' devem ter o mesmo comprimento"
    );
}

#[test]
fn test_regressao_poucos_pontos() {
    let x = [1.0];
    let y = [2.0];
    let resultado = validar_regressao(x.len(), y.len());
    assert!(resultado.is_err());
    assert_eq!(
        resultado.unwrap_err().mensagem(),
        "São necessários pelo menos dois pontos de dados para realizar a regressão linear"
    );
}

#[test]
fn test_media_vazio() {
    let data: [f64; 0] = [];
    let resultado = validar_media(data.len());
    assert!(resultado.is_err());
    assert_eq!(
        resultado.unwrap_err().mensagem(),
        "Não é possível calcular a média de um array vazio"
    );
}

#[test]
fn test_r_quadrado_tamanhos_diferentes() {
    let y_real = [1.0, 2.0, 3.0];
    let y_previsto = [1.1, 1.9];
    let resultado = validar_r_quadrado(y_real.len(), y_previsto.len());
    assert!(resultado.is_err());
    assert_eq!(
        resultado.unwrap_err().mensagem(),
        "Os arrays 'y_real' e 'y_previsto' devem ter o mesmo comprimento"
    );
}

#[test]
fn test_r_quadrado_poucos_pontos() {
    let y_real = [1.0];
    let y_previsto = [1.1];
    let resultado = validar_r_quadrado(y_real.len(), y_previsto.len());
    assert!(resultado.is_err());
    assert_eq!(
        resultado.unwrap_err().mensagem(),
        "São necessários pelo menos dois pontos de dados para calcular o R²"
    );
}

#[test]
fn test_mse_tamanhos_diferentes() {
    let y_real = [1.0, 2.0, 3.0];
    let y_previsto = [1.1, 1.9];
    let resultado = validar_mse(y_real.len(), y_previsto.len());
    assert!(resultado.is_err());
    assert_eq!(
        resultado.unwrap_err().mensagem(),
        "Os arrays 'y_real' e 'y_previsto' devem ter o mesmo comprimento"
    );
}

#[test]
fn test_mse_vazio() {
    let y_real: [f64; 0] = [];
    let y_previsto: [f64; 0] = [];
    let resultado = validar_mse(y_real.len(), y_previsto.len());
    assert!(resultado.is_err());
    assert_eq!(
        resultado.unwrap_err().mensagem(),
        "Os arrays 'y_real' e 'y_previsto' não podem estar vazios"
    );
}

#[test]
fn media_aceita_um_valor() {
    assert_eq!(validar_media(1), Ok(()));
    assert_eq!(validar_media(5), Ok(()));
    assert_eq!(validar_media(usize::MAX), Ok(()));
}

#[test]
fn media_vazia_tem_tipo_proprio() {
    assert_eq!(validar_media(0), Err(Erro::EntradaVazia { calculo: Calculo::Media }));
}

#[test]
fn regressao_aceita_a_partir_de_dois_pontos() {
    assert_eq!(validar_regressao(2, 2), Ok(()));
    assert_eq!(validar_regressao(5, 5), Ok(()));
}

#[test]
fn regressao_recusa_por_tipo() {
    assert_eq!(
        validar_regressao(3, 2),
        Err(Erro::ComprimentoDiferente { primeira: Serie::X, segunda: Serie::Y })
    );
    assert_eq!(
        validar_regressao(1, 1),
        Err(Erro::DadosInsuficientes { calculo: Calculo::Regressao })
    );
    assert_eq!(
        validar_regressao(0, 0),
        Err(Erro::DadosInsuficientes { calculo: Calculo::Regressao })
    );
}

#[test]
fn regressao_relata_comprimento_antes_de_insuficiencia() {
    assert_eq!(
        validar_regressao(0, 1),
        Err(Erro::ComprimentoDiferente { primeira: Serie::X, segunda: Serie::Y })
    );
    assert_eq!(
        validar_regressao(1, 0),
        Err(Erro::ComprimentoDiferente { primeira: Serie::X, segunda: Serie::Y })
    );
}

#[test]
fn r_quadrado_recusa_por_tipo() {
    assert_eq!(
        validar_r_quadrado(3, 2),
        Err(Erro::ComprimentoDiferente { primeira: Serie::YReal, segunda: Serie::YPrevisto })
    );
    assert_eq!(
        validar_r_quadrado(1, 1),
        Err(Erro::DadosInsuficientes { calculo: Calculo::RQuadrado })
    );
    assert_eq!(validar_r_quadrado(2, 2), Ok(()));
    assert_eq!(validar_r_quadrado(5, 5), Ok(()));
}

#[test]
fn mse_aceita_um_unico_ponto() {
    assert_eq!(validar_mse(1, 1), Ok(()));
    assert_eq!(validar_mse(5, 5), Ok(()));
}

#[test]
fn mse_recusa_por_tipo() {
    assert_eq!(
        validar_mse(3, 2),
        Err(Erro::ComprimentoDiferente { primeira: Serie::YReal, segunda: Serie::YPrevisto })
    );
    assert_eq!(validar_mse(0, 0), Err(Erro::EntradaVazia { calculo: Calculo::Mse }));
    assert_eq!(
        validar_mse(0, 1),
        Err(Erro::ComprimentoDiferente { primeira: Serie::YReal, segunda: Serie::YPrevisto })
    );
}

#[test]
fn quem_entra_na_regressao_entra_na_media() {
    for n in 0..6usize {
        for m in 0..6usize {
            if validar_regressao(n, m).is_ok() {
                assert!(validar_media(n).is_ok());
                assert!(validar_media(m).is_ok());
            }
            if validar_r_quadrado(n, m).is_ok() {
                assert!(validar_media(n).is_ok());
                assert!(validar_mse(n, m).is_ok());
            }
        }
    }
}

#[test]
fn r_quadrado_serie_constante_ajuste_perfeito() {
    let y_real = [2.0f64, 2.0, 2.0];
    let y_previsto = [2.0f64, 2.0, 2.0];
    assert_eq!(validar_r_quadrado(y_real.len(), y_previsto.len()), Ok(()));
    let media = y_real.iter().sum::<f64>() / (y_real.len() as f64);
    let mut sq_total = 0.0f64;
    let mut sq_erro = 0.0f64;
    for i in 0..y_real.len() {
        sq_total += (y_real[i] - media).powi(2);
        sq_erro += (y_real[i] - y_previsto[i]).powi(2);
    }
    let ajuste =
        classificar_r_quadrado(sq_total.abs() < f64::EPSILON, sq_erro.abs() < f64::EPSILON);
    assert_eq!(ajuste, Ok(Ajuste::Perfeito));
}

#[test]
fn r_quadrado_tabela_de_tratamento() {
    assert_eq!(classificar_r_quadrado(false, false), Ok(Ajuste::Razao));
    assert_eq!(classificar_r_quadrado(false, true), Ok(Ajuste::Razao));
    assert_eq!(classificar_r_quadrado(true, true), Ok(Ajuste::Perfeito));
    assert_eq!(classificar_r_quadrado(true, false), Err(Erro::MetricaIndefinida));
}

#[test]
fn r_quadrado_serie_constante_com_residuo_nao_tem_metrica() {
    let resultado = classificar_r_quadrado(true, false);
    assert!(resultado.is_err());
    assert_eq!(
        resultado.unwrap_err().mensagem(),
        "Não é possível calcular o R² (variância de y_real é zero e erro não é zero)"
    );
}
