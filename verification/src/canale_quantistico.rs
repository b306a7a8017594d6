//! Canale quantistico persistente: una tupla (polarizzazione, valore) e i
//! flag che regolano il passaggio del fotone fra Scrittore, Avversario e Lettore.

use vstd::prelude::*;

use crate::casuale::bit_casuale;

verus! {

#[derive(Debug, Clone, Copy)]
pub struct CanaleQuantistico {
    pub canale_quantistico: (char, u8),
    pub fotone_in: bool,
    pub letto_da_avversario: bool,
}

impl CanaleQuantistico {
    /// Stato iniziale: nessun fotone, polarizzazione `' '` e valore 0.
    pub open spec fn iniziale() -> Self {
        CanaleQuantistico { canale_quantistico: (' ', 0), fotone_in: false, letto_da_avversario: false }
    }

    /// Stato dopo che lo Scrittore ha posto sul canale il fotone `(pol, val)`.
    pub open spec fn dopo_spedizione(self, pol: char, val: u8) -> Self {
        CanaleQuantistico { canale_quantistico: (pol, val), letto_da_avversario: false, ..self }
    }

    /// Valore letto misurando nella base `pol`, quando il collasso casuale
    /// (se avviene) produce `bit`.
    pub open spec fn esito_misura(self, pol: char, bit: u8) -> u8 {
        if pol == self.canale_quantistico.0 {
            self.canale_quantistico.1
        } else {
            bit
        }
    }

    /// Stato dopo una misura nella base `pol`: con la stessa base il fotone
    /// resta intatto, con una base diversa collassa sul valore `bit`.
    pub open spec fn dopo_misura(self, pol: char, bit: u8) -> Self {
        if pol == self.canale_quantistico.0 {
            self
        } else {
            CanaleQuantistico { canale_quantistico: (self.canale_quantistico.0, bit), ..self }
        }
    }

    pub open spec fn con_fotone_in(self, presente: bool) -> Self {
        CanaleQuantistico { fotone_in: presente, ..self }
    }

    pub open spec fn con_letto_da_avversario(self) -> Self {
        CanaleQuantistico { letto_da_avversario: true, ..self }
    }

    /// L'Avversario puo' leggere: c'e' un fotone che non ha ancora letto.
    pub open spec fn pronto_per_avversario_spec(self) -> bool {
        self.fotone_in && !self.letto_da_avversario
    }

    /// Il Lettore puo' leggere: c'e' un fotone e, se l'Avversario e' attivo,
    /// l'Avversario lo ha gia' letto.
    pub open spec fn pronto_per_lettore_spec(self, avversario_attivo: bool) -> bool {
        self.fotone_in && (!avversario_attivo || self.letto_da_avversario)
    }

    pub fn new() -> (cq: Self)
        ensures
            cq == Self::iniziale(),
    {
        CanaleQuantistico { canale_quantistico: (' ', 0), fotone_in: false, letto_da_avversario: false }
    }

    /// Spedizione del fotone (solo Scrittore).
    pub fn spedizione_fotone(&mut self, pol: char, val: u8)
        ensures
            *final(self) == old(self).dopo_spedizione(pol, val),
    {
        self.canale_quantistico = (pol, val);
        self.letto_da_avversario = false;
    }

    /// Misura del fotone nella base `pol_lettura`, con `bit` come esito di un
    /// eventuale collasso.
    pub fn misura_fotone(&mut self, pol_lettura: char, bit: u8) -> (letto: u8)
        ensures
            letto == old(self).esito_misura(pol_lettura, bit),
            *final(self) == old(self).dopo_misura(pol_lettura, bit),
    {
        let (pol_canale, val_corrente) = self.canale_quantistico;
        if pol_canale == pol_lettura {
            val_corrente
        } else {
            self.canale_quantistico.1 = bit;
            bit
        }
    }

    /// Lettura del fotone (Lettore o Avversario): con la stessa base si legge
    /// il valore spedito; con una base diversa il fotone collassa su un bit
    /// casuale, che viene letto e resta sul canale.
    pub fn lettura_fotone(&mut self, pol_lettura: char) -> (letto: u8)
        ensures
            letto == old(self).esito_misura(pol_lettura, letto),
            *final(self) == old(self).dopo_misura(pol_lettura, letto),
            pol_lettura != old(self).canale_quantistico.0 ==> letto <= 1,
    {
        if self.canale_quantistico.0 == pol_lettura {
            self.canale_quantistico.1
        } else {
            let nuovo = bit_casuale();
            self.misura_fotone(pol_lettura, nuovo)
        }
    }

    pub fn set_fotone_in(&mut self)
        ensures
            *final(self) == old(self).con_fotone_in(true),
    {
        self.fotone_in = true;
    }

    pub fn set_fotone_out(&mut self)
        ensures
            *final(self) == old(self).con_fotone_in(false),
    {
        self.fotone_in = false;
    }

    pub fn mark_letto_da_avversario(&mut self)
        ensures
            *final(self) == old(self).con_letto_da_avversario(),
    {
        self.letto_da_avversario = true;
    }

    /// Vero quando l'Avversario puo' leggere il fotone presente.
    pub fn pronto_per_avversario(&self) -> (pronto: bool)
        ensures
            pronto == self.pronto_per_avversario_spec(),
    {
        self.fotone_in && !self.letto_da_avversario
    }

    /// Vero quando il Lettore puo' leggere il fotone presente.
    pub fn pronto_per_lettore(&self, avversario_attivo: bool) -> (pronto: bool)
        ensures
            pronto == self.pronto_per_lettore_spec(avversario_attivo),
    {
        self.fotone_in && (!avversario_attivo || self.letto_da_avversario)
    }
}

/// Cio' che si scrive si rilegge: dopo la spedizione di `(pol, val)`, una
/// misura nella stessa base `pol` restituisce `val`, qualunque sia il bit del
/// collasso, e lascia il canale invariato; i flag di presenza e di lettura
/// dell'Avversario non cambiano il valore letto.
pub proof fn lemma_stessa_base_rilegge(cq: CanaleQuantistico, pol: char, val: u8, bit: u8)
    ensures
        cq.dopo_spedizione(pol, val).esito_misura(pol, bit) == val,
        cq.dopo_spedizione(pol, val).dopo_misura(pol, bit) == cq.dopo_spedizione(pol, val),
        forall|presente: bool|
            #[trigger] cq.dopo_spedizione(pol, val).con_fotone_in(presente).esito_misura(pol, bit)
                == val,
        cq.dopo_spedizione(pol, val).con_letto_da_avversario().esito_misura(pol, bit) == val,
{
}

/// Disturbo della misura: se una misura nella base `altra` diversa da quella
/// di spedizione fa collassare il fotone su `bit`, una misura successiva nella
/// base di spedizione legge `bit`, non piu' il valore spedito.
pub proof fn lemma_base_diversa_disturba(
    cq: CanaleQuantistico,
    pol: char,
    val: u8,
    altra: char,
    bit: u8,
    bit_dopo: u8,
)
    requires
        altra != pol,
    ensures
        cq.dopo_spedizione(pol, val).dopo_misura(altra, bit).esito_misura(pol, bit_dopo) == bit,
        cq.dopo_spedizione(pol, val).dopo_misura(altra, bit).canale_quantistico.0 == pol,
{
}

/// Ordine di lettura: dopo che lo Scrittore ha spedito un fotone e lo ha
/// segnalato presente, l'Avversario puo' leggere; il Lettore puo' leggere
/// subito se l'Avversario non e' attivo, altrimenti solo dopo che l'Avversario
/// ha segnato la sua lettura. Quando il Lettore rimette il fotone fuori,
/// nessuno dei due puo' leggere di nuovo.
pub proof fn lemma_ordine_di_lettura(cq: CanaleQuantistico, pol: char, val: u8)
    ensures
        ({
            let inviato = cq.dopo_spedizione(pol, val).con_fotone_in(true);
            &&& inviato.pronto_per_avversario_spec()
            &&& inviato.pronto_per_lettore_spec(false)
            &&& !inviato.pronto_per_lettore_spec(true)
            &&& inviato.con_letto_da_avversario().pronto_per_lettore_spec(true)
            &&& !inviato.con_letto_da_avversario().pronto_per_avversario_spec()
        }),
        forall|attivo: bool, c: CanaleQuantistico|
            !(#[trigger] c.con_fotone_in(false).pronto_per_lettore_spec(attivo))
                && !c.con_fotone_in(false).pronto_per_avversario_spec(),
{
}

/// Una lettura dell'Avversario per fotone: una volta segnata la lettura
/// dell'Avversario, ne' le misure ne' lo spostamento del fotone la cancellano,
/// quindi l'Avversario non e' di nuovo pronto finche' lo Scrittore non spedisce
/// un nuovo fotone, che la azzera.
pub proof fn lemma_una_lettura_per_fotone(
    cq: CanaleQuantistico,
    pol: char,
    bit: u8,
    presente: bool,
    val: u8,
)
    requires
        cq.letto_da_avversario,
    ensures
        !cq.pronto_per_avversario_spec(),
        !cq.dopo_misura(pol, bit).pronto_per_avversario_spec(),
        !cq.con_fotone_in(presente).pronto_per_avversario_spec(),
        !cq.con_letto_da_avversario().pronto_per_avversario_spec(),
        cq.dopo_spedizione(pol, val).con_fotone_in(true).pronto_per_avversario_spec(),
{
}

} // verus!
