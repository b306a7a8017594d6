//! Il Lettore: misura ogni fotone in una base scelta a caso, confronta le sue
//! basi con quelle pubblicate dallo Scrittore, spedisce gli esiti e ricava
//! bit di test e chiave simmetrica.

use vstd::prelude::*;

use crate::canale_pubblico::CanalePubblico;
use crate::canale_quantistico::CanaleQuantistico;
use crate::casuale::{moneta, polarizzazione_da_moneta, polarizzazione_valida};
use crate::protocollo::{
    bit_di_test, chiave_grezza, chiave_simmetrica, copia, esiti, estrai_chiave_grezza,
    estrai_ogni_otto, ripetuto,
};
use crate::{ATTIVA_AVVERSARIO, LUNG_MSG};

verus! {

pub struct Lettore {
    messaggio_quantistico_ricevuto: Vec<(char, u8)>,
    esito_letture: Vec<bool>,
    chiave_grezza: Vec<u8>,
    chiave_simmetrica: Vec<u8>,
}

/// Lo stato del Lettore come valori matematici.
#[verifier::ext_equal]
pub struct StatoLettore {
    /// Fotoni `(polarizzazione di lettura, valore letto)`.
    pub messaggio: Seq<(char, u8)>,
    pub esito: Seq<bool>,
    pub chiave_grezza: Seq<u8>,
    pub chiave_simmetrica: Seq<u8>,
}

impl View for Lettore {
    type V = StatoLettore;

    closed spec fn view(&self) -> StatoLettore {
        StatoLettore {
            messaggio: self.messaggio_quantistico_ricevuto@,
            esito: self.esito_letture@,
            chiave_grezza: self.chiave_grezza@,
            chiave_simmetrica: self.chiave_simmetrica@,
        }
    }
}

impl Lettore {
    /// Il Lettore tiene un posto per ciascuno dei `LUNG_MSG` fotoni.
    pub open spec fn ben_formato(&self) -> bool {
        &&& self@.messaggio.len() == LUNG_MSG
        &&& self@.esito.len() == LUNG_MSG
    }

    pub fn new(_lung: usize) -> (l: Self)
        ensures
            l.ben_formato(),
            l@.messaggio == Seq::new(LUNG_MSG as nat, |i: int| (' ', 0u8)),
            l@.esito == Seq::new(LUNG_MSG as nat, |i: int| false),
            l@.chiave_grezza == Seq::<u8>::empty(),
            l@.chiave_simmetrica == Seq::<u8>::empty(),
    {
        Lettore {
            messaggio_quantistico_ricevuto: ripetuto((' ', 0u8), LUNG_MSG),
            esito_letture: ripetuto(false, LUNG_MSG),
            chiave_grezza: Vec::new(),
            chiave_simmetrica: Vec::new(),
        }
    }

    /// La lettura del fotone `letti` e' registrata: la base scelta e' una delle
    /// due, il valore e' quello che la misura nel canale `cq_prima` da', il
    /// canale resta come la misura lo lascia con il fotone tolto, e solo il
    /// posto `letti` del messaggio cambia.
    pub open spec fn lettura_registrata(
        prima: StatoLettore,
        dopo: StatoLettore,
        cq_prima: CanaleQuantistico,
        cq_dopo: CanaleQuantistico,
        letti: int,
    ) -> bool {
        let (pol, val) = dopo.messaggio[letti];
        &&& polarizzazione_valida(pol)
        &&& val == cq_prima.esito_misura(pol, val)
        &&& pol != cq_prima.canale_quantistico.0 ==> val <= 1
        &&& cq_dopo == cq_prima.dopo_misura(pol, val).con_fotone_in(false)
        &&& dopo == (StatoLettore {
            messaggio: prima.messaggio.update(letti, (pol, val)),
            ..prima
        })
    }

    /// Misura del fotone presente sul canale, indice `letti`: sceglie a caso la
    /// base, legge il fotone, lo toglie dal canale e registra la lettura. Il
    /// fotone dev'essere pronto per il Lettore: presente e, se l'Avversario e'
    /// attivo, gia' letto dall'Avversario.
    pub fn osserva_fotone(&mut self, cq: &mut CanaleQuantistico, letti: usize)
        requires
            old(self).ben_formato(),
            letti < LUNG_MSG,
            old(cq).pronto_per_lettore_spec(ATTIVA_AVVERSARIO),
        ensures
            final(self).ben_formato(),
            Self::lettura_registrata(old(self)@, final(self)@, *old(cq), *final(cq), letti as int),
            !final(cq).fotone_in,
    {
        let pol = polarizzazione_da_moneta(moneta());
        let val = cq.lettura_fotone(pol);
        cq.set_fotone_out();
        self.messaggio_quantistico_ricevuto.set(letti, (pol, val));
    }

    /// Un passo del ciclo di lettura, con `letti` fotoni gia' letti: se il
    /// fotone e' pronto per il Lettore lo legge e restituisce `letti + 1`,
    /// altrimenti non tocca nulla e restituisce `letti` (il ciclo attende).
    pub fn passo_lettura(&mut self, cq: &mut CanaleQuantistico, letti: usize) -> (letti_dopo: usize)
        requires
            old(self).ben_formato(),
            letti < LUNG_MSG,
        ensures
            final(self).ben_formato(),
            old(cq).pronto_per_lettore_spec(ATTIVA_AVVERSARIO) ==> {
                &&& letti_dopo == letti + 1
                &&& Self::lettura_registrata(
                    old(self)@,
                    final(self)@,
                    *old(cq),
                    *final(cq),
                    letti as int,
                )
            },
            !old(cq).pronto_per_lettore_spec(ATTIVA_AVVERSARIO) ==> {
                &&& letti_dopo == letti
                &&& final(self)@ == old(self)@
                &&& *final(cq) == *old(cq)
            },
    {
        if cq.pronto_per_lettore(ATTIVA_AVVERSARIO) {
            self.osserva_fotone(cq, letti);
            letti + 1
        } else {
            letti
        }
    }

    /// Fine lettura dei fotoni, segnalata sul canale pubblico.
    pub fn fine_lettura(&self, cp: &mut CanalePubblico)
        ensures
            final(cp)@ == old(cp)@.segna_fine_lettura(),
    {
        cp.fine_lettura();
    }

    /// Legge le polarizzazioni pubblicate, calcola per ogni fotone se la base
    /// di lettura coincide e spedisce la sequenza degli esiti.
    pub fn verifica_polarizzazioni(&mut self, cp: &mut CanalePubblico)
        requires
            old(self).ben_formato(),
            old(cp)@.canale_pubblico.len() >= LUNG_MSG,
        ensures
            final(self).ben_formato(),
            final(self)@ == (StatoLettore {
                esito: esiti(old(self)@.messaggio, old(cp)@.canale_pubblico),
                ..old(self)@
            }),
            final(cp)@ == old(cp)@.leggi_polarizzazioni().spedizione_sequenza(final(self)@.esito),
    {
        let pol_tx = cp.leggi_polarizzazioni();
        let ghost m = self@.messaggio;
        let mut i: usize = 0;
        while i < LUNG_MSG
            invariant
                i <= LUNG_MSG,
                pol_tx@.len() >= LUNG_MSG,
                self@.messaggio == m,
                m.len() == LUNG_MSG,
                self@.esito.len() == LUNG_MSG,
                forall|j: int| 0 <= j < i ==> self@.esito[j] == (m[j].0 == pol_tx@[j]),
                self@.chiave_grezza == old(self)@.chiave_grezza,
                self@.chiave_simmetrica == old(self)@.chiave_simmetrica,
            decreases LUNG_MSG - i,
        {
            let uguale = self.messaggio_quantistico_ricevuto[i].0 == pol_tx[i];
            self.esito_letture.set(i, uguale);
            i = i + 1;
        }
        assert(self@.esito =~= esiti(m, pol_tx@));
        cp.spedizione_sequenza(copia(&self.esito_letture));
    }

    /// Costruisce la chiave grezza, ne separa i bit di test (uno ogni 8, a
    /// partire dal primo) dalla chiave simmetrica, pubblica i bit di test e
    /// salva sul canale il messaggio ricevuto e la chiave per il riepilogo.
    pub fn prepara_test_e_chiave(&mut self, cp: &mut CanalePubblico)
        requires
            old(self).ben_formato(),
        ensures
            final(self).ben_formato(),
            ({
                let grezza = chiave_grezza(old(self)@.messaggio, old(self)@.esito);
                &&& final(self)@ == (StatoLettore {
                    chiave_grezza: grezza,
                    chiave_simmetrica: chiave_simmetrica(grezza),
                    ..old(self)@
                })
                &&& final(cp)@ == old(cp)@.scrittura_test_avversario(
                    bit_di_test(grezza),
                ).con_dbg_lettore(old(self)@.messaggio).con_dbg_chiave_lettore(
                    chiave_simmetrica(grezza),
                )
            }),
    {
        self.chiave_grezza = estrai_chiave_grezza(&self.messaggio_quantistico_ricevuto, &self.esito_letture);
        let test = estrai_ogni_otto(&self.chiave_grezza, true);
        self.chiave_simmetrica = estrai_ogni_otto(&self.chiave_grezza, false);
        cp.scrittura_test_avversario(test);
        cp.dbg_set_lettore_seq(copia(&self.messaggio_quantistico_ricevuto));
        cp.dbg_set_chiave_lettore(copia(&self.chiave_simmetrica));
    }

    /// Consuntivo finale: nessuna azione, il riepilogo e' stampato altrove.
    pub fn consuntiva(&mut self, _cp: &CanalePubblico)
        ensures
            final(self)@ == old(self)@,
    {
    }

    /// I fotoni letti `(polarizzazione di lettura, valore)`.
    pub fn messaggio_ricevuto(&self) -> (m: Vec<(char, u8)>)
        ensures
            m@ == self@.messaggio,
    {
        copia(&self.messaggio_quantistico_ricevuto)
    }

    pub fn esito_letture(&self) -> (e: Vec<bool>)
        ensures
            e@ == self@.esito,
    {
        copia(&self.esito_letture)
    }

    pub fn chiave_grezza(&self) -> (k: Vec<u8>)
        ensures
            k@ == self@.chiave_grezza,
    {
        copia(&self.chiave_grezza)
    }

    pub fn chiave_simmetrica(&self) -> (k: Vec<u8>)
        ensures
            k@ == self@.chiave_simmetrica,
    {
        copia(&self.chiave_simmetrica)
    }
}

} // verus!
