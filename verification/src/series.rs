use vstd::prelude::*;
use crate::erro::ErroAjuste;

verus! {

/// Two series pair up when they have the same length and at least one sample.
pub open spec fn series_pareadas(len_x: usize, len_y: usize) -> bool {
    len_x == len_y && len_x > 0
}

/// Checks the lengths of the period series and of the value series before a fit.
///
/// Returns the number of samples when the series pair up, and
/// `ShapeMismatch` otherwise; no other error comes out of this check.
pub fn validar_series(len_x: usize, len_y: usize) -> (r: Result<usize, ErroAjuste>)
    ensures
        series_pareadas(len_x, len_y) ==> r == Ok::<usize, ErroAjuste>(len_x),
        !series_pareadas(len_x, len_y) ==> r == Err::<usize, ErroAjuste>(ErroAjuste::ShapeMismatch),
{
    if len_x != len_y || len_x == 0 {
        Err(ErroAjuste::ShapeMismatch)
    } else {
        Ok(len_x)
    }
}

/// Decides how a fit ends, from the two lengths and from whether the
/// denominator of the slope came out as exactly zero.
///
/// The lengths are judged first: series that do not pair up are refused with
/// `ShapeMismatch` whatever the denominator. Paired series with a zero
/// denominator are refused with `DegenerateInput`. Otherwise the fit goes
/// ahead on the number of samples returned.
pub fn decidir_ajuste(len_x: usize, len_y: usize, denominador_nulo: bool) -> (r: Result<usize, ErroAjuste>)
    ensures
        !series_pareadas(len_x, len_y) ==> r == Err::<usize, ErroAjuste>(ErroAjuste::ShapeMismatch),
        series_pareadas(len_x, len_y) && denominador_nulo ==> r == Err::<usize, ErroAjuste>(ErroAjuste::DegenerateInput),
        series_pareadas(len_x, len_y) && !denominador_nulo ==> r == Ok::<usize, ErroAjuste>(len_x),
{
    let pares = validar_series(len_x, len_y)?;
    if denominador_nulo {
        Err(ErroAjuste::DegenerateInput)
    } else {
        Ok(pares)
    }
}

} // verus!
