//! Canale pubblico condiviso fra Scrittore e Lettore: tre caselle
//! (polarizzazioni pubblicate, sequenza degli esiti, bit di test), ciascuna con
//! il suo flag di pronto, i flag di avanzamento e i campi di riepilogo.

use vstd::prelude::*;

use crate::protocollo::{copia, ripetuto};

verus! {

#[derive(Debug, Clone)]
pub struct CanalePubblico {
    /// Polarizzazioni pubblicate dallo Scrittore.
    pub canale_pubblico: Vec<char>,
    /// Esito per ciascun fotone.
    pub sequenza_ricezione: Vec<bool>,
    pub pubblicazione_pronta: bool,
    pub fine_lettura: bool,
    pub sequenza_polarizzazioni_pronta: bool,
    pub test_avversario_pronto: bool,
    pub chiave_simmetrica_ok: bool,
    pub processo_terminato: bool,
    /// Bit di test del Lettore.
    pub test_avversario: Vec<u8>,
    pub dbg_scrittore: Vec<(char, u8)>,
    pub dbg_avversario: Vec<(char, u8)>,
    pub dbg_lettore: Vec<(char, u8)>,
    pub dbg_chiave_scrittore: Vec<u8>,
    pub dbg_chiave_lettore: Vec<u8>,
}

/// Il contenuto del canale pubblico come valori matematici.
#[verifier::ext_equal]
pub struct StatoPubblico {
    pub canale_pubblico: Seq<char>,
    pub sequenza_ricezione: Seq<bool>,
    pub pubblicazione_pronta: bool,
    pub fine_lettura: bool,
    pub sequenza_polarizzazioni_pronta: bool,
    pub test_avversario_pronto: bool,
    pub chiave_simmetrica_ok: bool,
    pub processo_terminato: bool,
    pub test_avversario: Seq<u8>,
    pub dbg_scrittore: Seq<(char, u8)>,
    pub dbg_avversario: Seq<(char, u8)>,
    pub dbg_lettore: Seq<(char, u8)>,
    pub dbg_chiave_scrittore: Seq<u8>,
    pub dbg_chiave_lettore: Seq<u8>,
}

impl View for CanalePubblico {
    type V = StatoPubblico;

    open spec fn view(&self) -> StatoPubblico {
        StatoPubblico {
            canale_pubblico: self.canale_pubblico@,
            sequenza_ricezione: self.sequenza_ricezione@,
            pubblicazione_pronta: self.pubblicazione_pronta,
            fine_lettura: self.fine_lettura,
            sequenza_polarizzazioni_pronta: self.sequenza_polarizzazioni_pronta,
            test_avversario_pronto: self.test_avversario_pronto,
            chiave_simmetrica_ok: self.chiave_simmetrica_ok,
            processo_terminato: self.processo_terminato,
            test_avversario: self.test_avversario@,
            dbg_scrittore: self.dbg_scrittore@,
            dbg_avversario: self.dbg_avversario@,
            dbg_lettore: self.dbg_lettore@,
            dbg_chiave_scrittore: self.dbg_chiave_scrittore@,
            dbg_chiave_lettore: self.dbg_chiave_lettore@,
        }
    }
}

impl StatoPubblico {
    /// Stato iniziale per `lung` fotoni.
    pub open spec fn iniziale(lung: nat) -> Self {
        StatoPubblico {
            canale_pubblico: Seq::new(lung, |i: int| ' '),
            sequenza_ricezione: Seq::new(lung, |i: int| false),
            pubblicazione_pronta: false,
            fine_lettura: false,
            sequenza_polarizzazioni_pronta: false,
            test_avversario_pronto: false,
            chiave_simmetrica_ok: false,
            processo_terminato: false,
            test_avversario: seq![],
            dbg_scrittore: seq![],
            dbg_avversario: seq![],
            dbg_lettore: seq![],
            dbg_chiave_scrittore: seq![],
            dbg_chiave_lettore: seq![],
        }
    }

    pub open spec fn pubblica_polarizzazioni(self, pol: Seq<char>) -> Self {
        StatoPubblico { canale_pubblico: pol, pubblicazione_pronta: true, ..self }
    }

    pub open spec fn leggi_polarizzazioni(self) -> Self {
        StatoPubblico { pubblicazione_pronta: false, ..self }
    }

    pub open spec fn segna_fine_lettura(self) -> Self {
        StatoPubblico { fine_lettura: true, ..self }
    }

    pub open spec fn spedizione_sequenza(self, seq: Seq<bool>) -> Self {
        StatoPubblico { sequenza_ricezione: seq, sequenza_polarizzazioni_pronta: true, ..self }
    }

    pub open spec fn lettura_sequenza(self) -> Self {
        StatoPubblico { sequenza_polarizzazioni_pronta: false, ..self }
    }

    pub open spec fn scrittura_test_avversario(self, test: Seq<u8>) -> Self {
        StatoPubblico { test_avversario: test, test_avversario_pronto: true, ..self }
    }

    pub open spec fn lettura_test_avversario(self) -> Self {
        StatoPubblico { test_avversario_pronto: false, ..self }
    }

    pub open spec fn segna_chiave_simmetrica_ok(self) -> Self {
        StatoPubblico { chiave_simmetrica_ok: true, ..self }
    }

    pub open spec fn segna_processo_terminato(self) -> Self {
        StatoPubblico { processo_terminato: true, ..self }
    }

    pub open spec fn con_dbg_scrittore(self, v: Seq<(char, u8)>) -> Self {
        StatoPubblico { dbg_scrittore: v, ..self }
    }

    pub open spec fn con_dbg_avversario(self, v: Seq<(char, u8)>) -> Self {
        StatoPubblico { dbg_avversario: v, ..self }
    }

    pub open spec fn con_dbg_lettore(self, v: Seq<(char, u8)>) -> Self {
        StatoPubblico { dbg_lettore: v, ..self }
    }

    pub open spec fn con_dbg_chiave_scrittore(self, v: Seq<u8>) -> Self {
        StatoPubblico { dbg_chiave_scrittore: v, ..self }
    }

    pub open spec fn con_dbg_chiave_lettore(self, v: Seq<u8>) -> Self {
        StatoPubblico { dbg_chiave_lettore: v, ..self }
    }
}

impl CanalePubblico {
    pub fn new(lung: usize) -> (cp: Self)
        ensures
            cp@ == StatoPubblico::iniziale(lung as nat),
    {
        CanalePubblico {
            canale_pubblico: ripetuto(' ', lung),
            sequenza_ricezione: ripetuto(false, lung),
            pubblicazione_pronta: false,
            fine_lettura: false,
            sequenza_polarizzazioni_pronta: false,
            test_avversario_pronto: false,
            chiave_simmetrica_ok: false,
            processo_terminato: false,
            test_avversario: Vec::new(),
            dbg_scrittore: Vec::new(),
            dbg_avversario: Vec::new(),
            dbg_lettore: Vec::new(),
            dbg_chiave_scrittore: Vec::new(),
            dbg_chiave_lettore: Vec::new(),
        }
    }

    /// Pubblicazione delle polarizzazioni dei fotoni trasmessi.
    pub fn pubblica_polarizzazioni(&mut self, pol: Vec<char>)
        ensures
            final(self)@ == old(self)@.pubblica_polarizzazioni(pol@),
    {
        self.canale_pubblico = pol;
        self.pubblicazione_pronta = true;
    }

    /// Lettura delle polarizzazioni pubblicate.
    pub fn leggi_polarizzazioni(&mut self) -> (pol: Vec<char>)
        ensures
            pol@ == old(self)@.canale_pubblico,
            final(self)@ == old(self)@.leggi_polarizzazioni(),
    {
        self.pubblicazione_pronta = false;
        copia(&self.canale_pubblico)
    }

    /// Fine lettura dei fotoni.
    pub fn fine_lettura(&mut self)
        ensures
            final(self)@ == old(self)@.segna_fine_lettura(),
    {
        self.fine_lettura = true;
    }

    /// Spedizione della sequenza degli esiti di ricezione.
    pub fn spedizione_sequenza(&mut self, seq: Vec<bool>)
        ensures
            final(self)@ == old(self)@.spedizione_sequenza(seq@),
    {
        self.sequenza_ricezione = seq;
        self.sequenza_polarizzazioni_pronta = true;
    }

    /// Lettura della sequenza degli esiti di ricezione.
    pub fn lettura_sequenza(&mut self) -> (seq: Vec<bool>)
        ensures
            seq@ == old(self)@.sequenza_ricezione,
            final(self)@ == old(self)@.lettura_sequenza(),
    {
        self.sequenza_polarizzazioni_pronta = false;
        copia(&self.sequenza_ricezione)
    }

    /// Scrittura dei bit di test per la presenza dell'avversario.
    pub fn scrittura_test_avversario(&mut self, test: Vec<u8>)
        ensures
            final(self)@ == old(self)@.scrittura_test_avversario(test@),
    {
        self.test_avversario = test;
        self.test_avversario_pronto = true;
    }

    /// Lettura dei bit di test per la presenza dell'avversario.
    pub fn lettura_test_avversario(&mut self) -> (test: Vec<u8>)
        ensures
            test@ == old(self)@.test_avversario,
            final(self)@ == old(self)@.lettura_test_avversario(),
    {
        self.test_avversario_pronto = false;
        copia(&self.test_avversario)
    }

    pub fn chiave_simmetrica_ok(&mut self)
        ensures
            final(self)@ == old(self)@.segna_chiave_simmetrica_ok(),
    {
        self.chiave_simmetrica_ok = true;
    }

    pub fn processo_terminato(&mut self)
        ensures
            final(self)@ == old(self)@.segna_processo_terminato(),
    {
        self.processo_terminato = true;
    }

    pub fn dbg_set_scrittore_seq(&mut self, v: Vec<(char, u8)>)
        ensures
            final(self)@ == old(self)@.con_dbg_scrittore(v@),
    {
        self.dbg_scrittore = v;
    }

    pub fn dbg_set_avversario_seq(&mut self, v: Vec<(char, u8)>)
        ensures
            final(self)@ == old(self)@.con_dbg_avversario(v@),
    {
        self.dbg_avversario = v;
    }

    pub fn dbg_set_lettore_seq(&mut self, v: Vec<(char, u8)>)
        ensures
            final(self)@ == old(self)@.con_dbg_lettore(v@),
    {
        self.dbg_lettore = v;
    }

    pub fn dbg_set_chiave_scrittore(&mut self, v: Vec<u8>)
        ensures
            final(self)@ == old(self)@.con_dbg_chiave_scrittore(v@),
    {
        self.dbg_chiave_scrittore = v;
    }

    pub fn dbg_set_chiave_lettore(&mut self, v: Vec<u8>)
        ensures
            final(self)@ == old(self)@.con_dbg_chiave_lettore(v@),
    {
        self.dbg_chiave_lettore = v;
    }
}

/// Consegna sul canale pubblico: cio' che una parte scrive in una delle tre
/// caselle (polarizzazioni, sequenza degli esiti, bit di test) e' cio' che
/// l'altra vi legge; la scrittura alza il flag di pronto e la lettura lo
/// abbassa, senza toccare il resto del canale.
pub proof fn lemma_consegna(s: StatoPubblico, pol: Seq<char>, seq: Seq<bool>, test: Seq<u8>)
    ensures
        s.pubblica_polarizzazioni(pol).canale_pubblico == pol,
        s.pubblica_polarizzazioni(pol).pubblicazione_pronta,
        !s.pubblica_polarizzazioni(pol).leggi_polarizzazioni().pubblicazione_pronta,
        s.pubblica_polarizzazioni(pol).leggi_polarizzazioni() == (StatoPubblico {
            canale_pubblico: pol,
            ..s
        }).leggi_polarizzazioni(),
        s.spedizione_sequenza(seq).sequenza_ricezione == seq,
        s.spedizione_sequenza(seq).sequenza_polarizzazioni_pronta,
        !s.spedizione_sequenza(seq).lettura_sequenza().sequenza_polarizzazioni_pronta,
        s.spedizione_sequenza(seq).lettura_sequenza() == (StatoPubblico {
            sequenza_ricezione: seq,
            ..s
        }).lettura_sequenza(),
        s.scrittura_test_avversario(test).test_avversario == test,
        s.scrittura_test_avversario(test).test_avversario_pronto,
        !s.scrittura_test_avversario(test).lettura_test_avversario().test_avversario_pronto,
        s.scrittura_test_avversario(test).lettura_test_avversario() == (StatoPubblico {
            test_avversario: test,
            ..s
        }).lettura_test_avversario(),
{
}

} // verus!
