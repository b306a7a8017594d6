//! Lo Scrittore: sceglie polarizzazione e valore di ogni fotone, li spedisce,
//! pubblica le polarizzazioni, ricava la chiave grezza dagli esiti del Lettore
//! e, se i bit di test concordano, la chiave simmetrica.

use vstd::prelude::*;

use crate::canale_pubblico::CanalePubblico;
use crate::canale_quantistico::CanaleQuantistico;
use crate::casuale::{
    moneta, polarizzazione_da_moneta, polarizzazione_spec, polarizzazione_valida, valore_da_moneta,
    valore_spec,
};
use crate::protocollo::{
    bit_di_test, chiave_grezza, chiave_simmetrica, copia, esiti_coperti, estrai_chiave_grezza,
    estrai_ogni_otto, polarizzazioni, stesse_sequenze,
};
use crate::LUNG_MSG;

verus! {

pub struct Scrittore {
    messaggio_quantistico: Vec<(char, u8)>,
    chiave_grezza: Vec<u8>,
    chiave_simmetrica: Vec<u8>,
}

/// Lo stato dello Scrittore come valori matematici.
#[verifier::ext_equal]
pub struct StatoScrittore {
    /// Fotoni `(polarizzazione, valore)` scelti, nell'ordine di spedizione.
    pub messaggio: Seq<(char, u8)>,
    pub chiave_grezza: Seq<u8>,
    pub chiave_simmetrica: Seq<u8>,
}

impl View for Scrittore {
    type V = StatoScrittore;

    closed spec fn view(&self) -> StatoScrittore {
        StatoScrittore {
            messaggio: self.messaggio_quantistico@,
            chiave_grezza: self.chiave_grezza@,
            chiave_simmetrica: self.chiave_simmetrica@,
        }
    }
}

impl Scrittore {
    pub fn new(_lung: usize) -> (s: Self)
        ensures
            s@.messaggio == Seq::<(char, u8)>::empty(),
            s@.chiave_grezza == Seq::<u8>::empty(),
            s@.chiave_simmetrica == Seq::<u8>::empty(),
    {
        Scrittore {
            messaggio_quantistico: Vec::new(),
            chiave_grezza: Vec::new(),
            chiave_simmetrica: Vec::new(),
        }
    }

    /// Aggiunge al messaggio il fotone scelto da due monete: la prima decide
    /// la polarizzazione, la seconda il valore.
    pub fn aggiungi_fotone(&mut self, moneta_pol: bool, moneta_val: bool)
        ensures
            final(self)@ == (StatoScrittore {
                messaggio: old(self)@.messaggio.push(
                    (polarizzazione_spec(moneta_pol), valore_spec(moneta_val)),
                ),
                ..old(self)@
            }),
    {
        let pol = polarizzazione_da_moneta(moneta_pol);
        let val = valore_da_moneta(moneta_val);
        self.messaggio_quantistico.push((pol, val));
    }

    /// Inizializzazione: sceglie a caso `LUNG_MSG` fotoni, li accoda al
    /// messaggio e ne salva una copia sul canale pubblico per il riepilogo.
    pub fn inizializzazione(&mut self, cp: &mut CanalePubblico)
        ensures
            final(self)@.messaggio.len() == old(self)@.messaggio.len() + LUNG_MSG,
            final(self)@.messaggio.take(old(self)@.messaggio.len() as int) == old(self)@.messaggio,
            forall|i: int|
                old(self)@.messaggio.len() <= i < final(self)@.messaggio.len() ==> {
                    &&& polarizzazione_valida(#[trigger] final(self)@.messaggio[i].0)
                    &&& final(self)@.messaggio[i].1 <= 1
                },
            final(self)@.chiave_grezza == old(self)@.chiave_grezza,
            final(self)@.chiave_simmetrica == old(self)@.chiave_simmetrica,
            final(cp)@ == old(cp)@.con_dbg_scrittore(final(self)@.messaggio),
    {
        let ghost iniziale = self@;
        let mut k: usize = 0;
        while k < LUNG_MSG
            invariant
                k <= LUNG_MSG,
                self@.messaggio.len() == iniziale.messaggio.len() + k,
                self@.messaggio.take(iniziale.messaggio.len() as int) == iniziale.messaggio,
                forall|i: int|
                    iniziale.messaggio.len() <= i < self@.messaggio.len() ==> {
                        &&& polarizzazione_valida(#[trigger] self@.messaggio[i].0)
                        &&& self@.messaggio[i].1 <= 1
                    },
                self@.chiave_grezza == iniziale.chiave_grezza,
                self@.chiave_simmetrica == iniziale.chiave_simmetrica,
            decreases LUNG_MSG - k,
        {
            let moneta_pol = moneta();
            let moneta_val = moneta();
            let ghost prima = self@.messaggio;
            self.aggiungi_fotone(moneta_pol, moneta_val);
            assert(self@.messaggio.take(iniziale.messaggio.len() as int) =~= prima.take(
                iniziale.messaggio.len() as int,
            ));
            k = k + 1;
        }
        cp.dbg_set_scrittore_seq(copia(&self.messaggio_quantistico));
    }

    /// Numero di fotoni del messaggio.
    pub fn numero_fotoni(&self) -> (n: usize)
        ensures
            n == self@.messaggio.len(),
    {
        self.messaggio_quantistico.len()
    }

    /// Spedisce sul canale quantistico il fotone di indice `i` e lo segnala
    /// presente; il ciclo di spedizione attende poi che il Lettore lo tolga.
    pub fn invia_fotone(&self, cq: &mut CanaleQuantistico, i: usize)
        requires
            i < self@.messaggio.len(),
        ensures
            *final(cq) == old(cq).dopo_spedizione(
                self@.messaggio[i as int].0,
                self@.messaggio[i as int].1,
            ).con_fotone_in(true),
    {
        let (pol, val) = self.messaggio_quantistico[i];
        cq.spedizione_fotone(pol, val);
        cq.set_fotone_in();
    }

    /// Un passo del ciclo di spedizione, con `inviati` fotoni gia' spediti: se
    /// ne restano e il canale e' libero (il Lettore ha tolto il fotone
    /// precedente) spedisce il fotone `inviati`, lo segnala presente e
    /// restituisce `inviati + 1`; altrimenti non tocca il canale e restituisce
    /// `inviati` (il ciclo attende). I fotoni escono quindi in ordine, uno per
    /// volta.
    pub fn passo_spedizione(&self, cq: &mut CanaleQuantistico, inviati: usize) -> (inviati_dopo: usize)
        requires
            inviati <= self@.messaggio.len(),
        ensures
            inviati < self@.messaggio.len() && !old(cq).fotone_in ==> {
                &&& inviati_dopo == inviati + 1
                &&& *final(cq) == old(cq).dopo_spedizione(
                    self@.messaggio[inviati as int].0,
                    self@.messaggio[inviati as int].1,
                ).con_fotone_in(true)
            },
            !(inviati < self@.messaggio.len() && !old(cq).fotone_in) ==> {
                &&& inviati_dopo == inviati
                &&& *final(cq) == *old(cq)
            },
    {
        if inviati < self.messaggio_quantistico.len() && !cq.fotone_in {
            self.invia_fotone(cq, inviati);
            inviati + 1
        } else {
            inviati
        }
    }

    /// Pubblicazione delle polarizzazioni sul canale pubblico.
    pub fn pubblicazione_polarizzazione(&self, cp: &mut CanalePubblico)
        ensures
            final(cp)@ == old(cp)@.pubblica_polarizzazioni(polarizzazioni(self@.messaggio)),
    {
        let mut pols: Vec<char> = Vec::new();
        let mut i: usize = 0;
        while i < self.messaggio_quantistico.len()
            invariant
                i <= self@.messaggio.len(),
                pols@ == polarizzazioni(self@.messaggio.take(i as int)),
            decreases self@.messaggio.len() - i,
        {
            pols.push(self.messaggio_quantistico[i].0);
            i = i + 1;
            assert(pols@ =~= polarizzazioni(self@.messaggio.take(i as int)));
        }
        assert(self@.messaggio.take(i as int) =~= self@.messaggio);
        cp.pubblica_polarizzazioni(pols);
    }

    /// Selezione della chiave grezza: i valori dei fotoni che il Lettore ha
    /// letto nella base giusta, secondo la sequenza degli esiti.
    pub fn selezione_chiave_grezza(&mut self, cp: &mut CanalePubblico)
        requires
            esiti_coperti(old(self)@.messaggio, old(cp)@.sequenza_ricezione),
        ensures
            final(self)@ == (StatoScrittore {
                chiave_grezza: chiave_grezza(old(self)@.messaggio, old(cp)@.sequenza_ricezione),
                ..old(self)@
            }),
            final(cp)@ == old(cp)@.lettura_sequenza(),
    {
        let seq = cp.lettura_sequenza();
        self.chiave_grezza = estrai_chiave_grezza(&self.messaggio_quantistico, &seq);
    }

    /// Selezione dei bit di test e definizione della chiave finale. Restituisce
    /// `true` se i bit di test dello Scrittore coincidono con quelli pubblicati
    /// dal Lettore: allora la chiave simmetrica e' la chiave grezza senza i bit
    /// di test. Altrimenti l'avversario e' rilevato e le chiavi di riepilogo di
    /// entrambe le parti vengono svuotate.
    pub fn selezione_test_e_chiave_finale(&mut self, cp: &mut CanalePubblico) -> (concordi: bool)
        ensures
            concordi == (bit_di_test(old(self)@.chiave_grezza) == old(cp)@.test_avversario),
            concordi ==> final(self)@ == (StatoScrittore {
                chiave_simmetrica: chiave_simmetrica(old(self)@.chiave_grezza),
                ..old(self)@
            }),
            concordi ==> final(cp)@ == old(cp)@.lettura_test_avversario().con_dbg_chiave_scrittore(
                chiave_simmetrica(old(self)@.chiave_grezza),
            ).segna_chiave_simmetrica_ok(),
            !concordi ==> final(self)@ == old(self)@,
            !concordi ==> final(cp)@ == old(cp)@.lettura_test_avversario().con_dbg_chiave_scrittore(
                seq![],
            ).con_dbg_chiave_lettore(seq![]),
    {
        let test_scrittore = estrai_ogni_otto(&self.chiave_grezza, true);
        let test_lettore = cp.lettura_test_avversario();
        if !stesse_sequenze(&test_scrittore, &test_lettore) {
            cp.dbg_set_chiave_scrittore(Vec::new());
            cp.dbg_set_chiave_lettore(Vec::new());
            return false;
        }
        self.chiave_simmetrica = estrai_ogni_otto(&self.chiave_grezza, false);
        cp.dbg_set_chiave_scrittore(copia(&self.chiave_simmetrica));
        cp.chiave_simmetrica_ok();
        true
    }

    /// I fotoni scelti, nell'ordine di spedizione.
    pub fn messaggio_quantistico(&self) -> (m: Vec<(char, u8)>)
        ensures
            m@ == self@.messaggio,
    {
        copia(&self.messaggio_quantistico)
    }

    pub fn chiave_grezza(&self) -> (k: Vec<u8>)
        ensures
            k@ == self@.chiave_grezza,
    {
        copia(&self.chiave_grezza)
    }

    pub fn chiave_simmetrica(&self) -> (k: Vec<u8>)
        ensures
            k@ == self@.chiave_simmetrica,
    {
        copia(&self.chiave_simmetrica)
    }
}

} // verus!
