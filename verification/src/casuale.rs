//! Estrazioni casuali dal generatore di `rand` legato al thread corrente.

use vstd::prelude::*;
use rand::Rng;

verus! {

/// Chiama `rand::Rng::gen_ratio` sul generatore `rand::thread_rng()`:
/// restituisce `true` con probabilita' `numeratore / denominatore`.
/// La documentazione di `rand` garantisce solo i due casi estremi:
/// `false` se il numeratore e' zero, `true` se e' uguale al denominatore;
/// negli altri casi l'esito dipende dal caso e nulla e' affermato.
/// `gen_ratio` va in panico con denominatore nullo o numeratore maggiore
/// del denominatore: `requires` esclude questi argomenti.
#[verifier::external_body]
pub(crate) fn evento_casuale(numeratore: u32, denominatore: u32) -> (esito: bool)
    requires
        0 < denominatore,
        numeratore <= denominatore,
    ensures
        numeratore == 0 ==> !esito,
        numeratore == denominatore ==> esito,
{
    rand::thread_rng().gen_ratio(numeratore, denominatore)
}

/// Chiama `rand::Rng::gen_range` con l'intervallo chiuso `basso..=alto` sul
/// generatore `rand::thread_rng()`: il valore restituito sta nell'intervallo.
/// `gen_range` va in panico con un intervallo vuoto: `requires` lo esclude.
#[verifier::external_body]
pub(crate) fn intero_casuale(basso: u8, alto: u8) -> (valore: u8)
    requires
        basso <= alto,
    ensures
        basso <= valore <= alto,
{
    rand::thread_rng().gen_range(basso..=alto)
}

/// Una moneta equa: `true` con probabilita' 1/2.
pub fn moneta() -> bool {
    evento_casuale(1, 2)
}

/// Un bit casuale, 0 oppure 1.
pub fn bit_casuale() -> (bit: u8)
    ensures
        bit <= 1,
{
    intero_casuale(0, 1)
}

/// Polarizzazione scelta dall'esito di una moneta: `'Z'` per testa, `'X'` per croce.
pub fn polarizzazione_da_moneta(testa: bool) -> (pol: char)
    ensures
        pol == polarizzazione_spec(testa),
{
    if testa { 'Z' } else { 'X' }
}

/// Valore del bit scelto dall'esito di una moneta: 1 per testa, 0 per croce.
pub fn valore_da_moneta(testa: bool) -> (val: u8)
    ensures
        val == valore_spec(testa),
{
    if testa { 1 } else { 0 }
}

pub open spec fn polarizzazione_spec(testa: bool) -> char {
    if testa { 'Z' } else { 'X' }
}

pub open spec fn valore_spec(testa: bool) -> u8 {
    if testa { 1 } else { 0 }
}

/// Ogni esito della moneta conta: testa da' la base `'Z'` e il valore 1,
/// croce la base `'X'` e il valore 0, quindi due esiti diversi danno fotoni
/// diversi.
pub proof fn lemma_scelte_da_moneta(testa: bool)
    ensures
        (polarizzazione_spec(testa) == 'Z') == testa,
        (valore_spec(testa) == 1) == testa,
        polarizzazione_spec(testa) != polarizzazione_spec(!testa),
        valore_spec(testa) != valore_spec(!testa),
{
}

/// Le due basi di polarizzazione usate dal protocollo.
pub open spec fn polarizzazione_valida(pol: char) -> bool {
    pol == 'Z' || pol == 'X'
}

} // verus!
