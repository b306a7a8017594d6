//! L'Avversario (opzionale): misura ogni fotone prima del Lettore, in una base
//! scelta a caso, e con una base sbagliata ne altera il valore.

use vstd::prelude::*;

use crate::canale_pubblico::CanalePubblico;
use crate::canale_quantistico::CanaleQuantistico;
use crate::casuale::{moneta, polarizzazione_da_moneta, polarizzazione_valida};
use crate::protocollo::{copia, ripetuto};
use crate::LUNG_MSG;

verus! {

pub struct Avversario {
    msg: Vec<(char, u8)>,
}

impl View for Avversario {
    type V = Seq<(char, u8)>;

    /// I fotoni letti `(polarizzazione di lettura, valore)`.
    closed spec fn view(&self) -> Seq<(char, u8)> {
        self.msg@
    }
}

impl Avversario {
    /// L'Avversario tiene un posto per ciascuno dei `LUNG_MSG` fotoni.
    pub open spec fn ben_formato(&self) -> bool {
        self@.len() == LUNG_MSG
    }

    pub fn new(_lung: usize) -> (a: Self)
        ensures
            a.ben_formato(),
            a@ == Seq::new(LUNG_MSG as nat, |i: int| (' ', 0u8)),
    {
        Avversario { msg: ripetuto((' ', 0u8), LUNG_MSG) }
    }

    /// La lettura del fotone `letti` e' registrata: la base scelta e' una delle
    /// due, il valore e' quello che la misura nel canale `cq_prima` da', il
    /// canale resta come la misura lo lascia, segnato come letto
    /// dall'Avversario, e solo il posto `letti` del messaggio cambia.
    pub open spec fn lettura_registrata(
        prima: Seq<(char, u8)>,
        dopo: Seq<(char, u8)>,
        cq_prima: CanaleQuantistico,
        cq_dopo: CanaleQuantistico,
        letti: int,
    ) -> bool {
        let (pol, val) = dopo[letti];
        &&& polarizzazione_valida(pol)
        &&& val == cq_prima.esito_misura(pol, val)
        &&& pol != cq_prima.canale_quantistico.0 ==> val <= 1
        &&& cq_dopo == cq_prima.dopo_misura(pol, val).con_letto_da_avversario()
        &&& dopo == prima.update(letti, (pol, val))
    }

    /// Misura del fotone non ancora letto, indice `letti`: sceglie a caso la
    /// base, legge il fotone, segna la lettura sul canale (ora il Lettore puo'
    /// procedere e l'Avversario non puo' rileggerlo) e la registra. Il fotone
    /// dev'essere presente e non ancora letto dall'Avversario.
    pub fn osserva_fotone(&mut self, cq: &mut CanaleQuantistico, letti: usize)
        requires
            old(self).ben_formato(),
            letti < LUNG_MSG,
            old(cq).pronto_per_avversario_spec(),
        ensures
            final(self).ben_formato(),
            Self::lettura_registrata(old(self)@, final(self)@, *old(cq), *final(cq), letti as int),
            !final(cq).pronto_per_avversario_spec(),
            final(cq).pronto_per_lettore_spec(true),
    {
        let pol = polarizzazione_da_moneta(moneta());
        let val = cq.lettura_fotone(pol);
        cq.mark_letto_da_avversario();
        self.msg.set(letti, (pol, val));
    }

    /// Un passo del ciclo di intercettazione, con `letti` fotoni gia' letti: se
    /// c'e' un fotone non ancora letto lo legge e restituisce `letti + 1`,
    /// altrimenti non tocca nulla e restituisce `letti` (il ciclo attende).
    pub fn passo_lettura(&mut self, cq: &mut CanaleQuantistico, letti: usize) -> (letti_dopo: usize)
        requires
            old(self).ben_formato(),
            letti < LUNG_MSG,
        ensures
            final(self).ben_formato(),
            old(cq).pronto_per_avversario_spec() ==> {
                &&& letti_dopo == letti + 1
                &&& Self::lettura_registrata(
                    old(self)@,
                    final(self)@,
                    *old(cq),
                    *final(cq),
                    letti as int,
                )
            },
            !old(cq).pronto_per_avversario_spec() ==> {
                &&& letti_dopo == letti
                &&& final(self)@ == old(self)@
                &&& *final(cq) == *old(cq)
            },
    {
        if cq.pronto_per_avversario() {
            self.osserva_fotone(cq, letti);
            letti + 1
        } else {
            letti
        }
    }

    /// Salva sul canale pubblico i fotoni letti, per il riepilogo.
    pub fn debug_pubblica(&self, cp: &mut CanalePubblico)
        ensures
            final(cp)@ == old(cp)@.con_dbg_avversario(self@),
    {
        cp.dbg_set_avversario_seq(copia(&self.msg));
    }

    /// I fotoni letti `(polarizzazione di lettura, valore)`.
    pub fn messaggio(&self) -> (m: Vec<(char, u8)>)
        ensures
            m@ == self@,
    {
        copia(&self.msg)
    }
}

} // verus!
