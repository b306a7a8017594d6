//! Simulazione del protocollo BB84 di distribuzione quantistica delle chiavi:
//! lo Scrittore invia fotoni polarizzati sul canale quantistico, il Lettore
//! (e, se attivo, l'Avversario) li misura, e le due parti concordano una
//! chiave simmetrica attraverso il canale pubblico.

use vstd::prelude::*;

pub mod casuale;
pub mod canale_quantistico;
pub mod protocollo;
pub mod canale_pubblico;
pub mod scrittore;
pub mod lettore;
pub mod avversario;
pub mod riepilogo;
pub mod sessione;

verus! {

/// Numero di fotoni trasmessi in una sessione: 64 fotoni (8 byte).
pub const LUNG_MSG: usize = 64;

/// Vale `true` quando l'Avversario intercetta i fotoni prima del Lettore.
pub const ATTIVA_AVVERSARIO: bool = false;

} // verus!
