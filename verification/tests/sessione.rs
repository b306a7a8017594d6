use bb84::avversario::Avversario;
use bb84::canale_pubblico::CanalePubblico;
use bb84::canale_quantistico::CanaleQuantistico;
use bb84::lettore::Lettore;
use bb84::scrittore::Scrittore;
use bb84::LUNG_MSG;

fn bits_test(grezza: &[u8]) -> Vec<u8> {
    grezza.iter().enumerate().filter(|(i, _)| i % 8 == 0).map(|(_, b)| *b).collect()
}

fn bits_chiave(grezza: &[u8]) -> Vec<u8> {
    grezza.iter().enumerate().filter(|(i, _)| i % 8 != 0).map(|(_, b)| *b).collect()
}

#[test]
fn scrittore_nuovo_e_fotoni_da_monete() {
    let mut s = Scrittore::new(LUNG_MSG);
    assert_eq!(s.numero_fotoni(), 0);
    assert!(s.chiave_grezza().is_empty() && s.chiave_simmetrica().is_empty());
    s.aggiungi_fotone(true, false);
    s.aggiungi_fotone(false, true);
    assert_eq!(s.messaggio_quantistico(), vec![('Z', 0), ('X', 1)]);
}

#[test]
fn inizializzazione_sceglie_lung_msg_fotoni() {
    let mut s = Scrittore::new(LUNG_MSG);
    let mut cp = CanalePubblico::new(LUNG_MSG);
    s.inizializzazione(&mut cp);
    let m = s.messaggio_quantistico();
    assert_eq!(m.len(), LUNG_MSG);
    assert!(m.iter().all(|(p, v)| (*p == 'Z' || *p == 'X') && *v <= 1));
    assert_eq!(cp.dbg_scrittore, m);
    // una seconda inizializzazione accoda altri fotoni
    s.inizializzazione(&mut cp);
    assert_eq!(s.numero_fotoni(), 2 * LUNG_MSG);
    assert_eq!(&s.messaggio_quantistico()[..LUNG_MSG], &m[..]);
}

#[test]
fn invio_e_pubblicazione() {
    let mut s = Scrittore::new(3);
    s.aggiungi_fotone(true, true);
    s.aggiungi_fotone(false, false);
    s.aggiungi_fotone(false, true);
    let mut cq = CanaleQuantistico::new();
    cq.letto_da_avversario = true;
    s.invia_fotone(&mut cq, 1);
    assert_eq!(cq.canale_quantistico, ('X', 0));
    assert!(cq.fotone_in);
    assert!(!cq.letto_da_avversario);
    let mut cp = CanalePubblico::new(3);
    s.pubblicazione_polarizzazione(&mut cp);
    assert_eq!(cp.canale_pubblico, vec!['Z', 'X', 'X']);
    assert!(cp.pubblicazione_pronta);
}

#[test]
fn scrittore_seleziona_chiave_e_rileva_avversario() {
    let mut s = Scrittore::new(10);
    let monete = [(true, true), (false, false), (true, false), (false, true), (true, true),
                  (true, true), (false, true), (true, false), (false, true), (true, true)];
    for (a, b) in monete {
        s.aggiungi_fotone(a, b);
    }
    let mut cp = CanalePubblico::new(10);
    cp.spedizione_sequenza(vec![true, true, false, true, true, true, true, true, true, true]);
    s.selezione_chiave_grezza(&mut cp);
    assert!(!cp.sequenza_polarizzazioni_pronta);
    let grezza = s.chiave_grezza();
    assert_eq!(grezza, vec![1, 0, 1, 1, 1, 1, 0, 1, 1]);

    // bit di test sbagliati: avversario rilevato, chiavi di riepilogo svuotate
    cp.dbg_set_chiave_lettore(vec![1, 1]);
    cp.scrittura_test_avversario(vec![0, 1]);
    assert!(!s.selezione_test_e_chiave_finale(&mut cp));
    assert!(s.chiave_simmetrica().is_empty());
    assert!(cp.dbg_chiave_scrittore.is_empty() && cp.dbg_chiave_lettore.is_empty());
    assert!(!cp.chiave_simmetrica_ok);
    assert!(!cp.test_avversario_pronto);

    // bit di test giusti: chiave simmetrica senza i bit di test
    cp.scrittura_test_avversario(vec![1, 1]);
    assert!(s.selezione_test_e_chiave_finale(&mut cp));
    assert_eq!(s.chiave_simmetrica(), vec![0, 1, 1, 1, 1, 0, 1]);
    assert_eq!(cp.dbg_chiave_scrittore, vec![0, 1, 1, 1, 1, 0, 1]);
    assert!(cp.chiave_simmetrica_ok);
}

#[test]
fn lettore_nuovo() {
    let l = Lettore::new(3);
    assert_eq!(l.messaggio_ricevuto(), vec![(' ', 0); LUNG_MSG]);
    assert_eq!(l.esito_letture(), vec![false; LUNG_MSG]);
    assert!(l.chiave_grezza().is_empty() && l.chiave_simmetrica().is_empty());
}

#[test]
fn lettore_osserva_e_toglie_il_fotone() {
    for _ in 0..50 {
        let mut l = Lettore::new(LUNG_MSG);
        let mut cq = CanaleQuantistico::new();
        cq.spedizione_fotone('Z', 1);
        cq.set_fotone_in();
        l.osserva_fotone(&mut cq, 5);
        let (p, v) = l.messaggio_ricevuto()[5];
        assert!(p == 'Z' || p == 'X');
        if p == 'Z' {
            assert_eq!(v, 1);
        } else {
            assert!(v <= 1);
        }
        assert_eq!(cq.canale_quantistico, ('Z', v));
        assert!(!cq.fotone_in);
        assert_eq!(l.messaggio_ricevuto()[4], (' ', 0));
    }
}

#[test]
fn avversario_osserva_e_segna() {
    let a = Avversario::new(1);
    assert_eq!(a.messaggio(), vec![(' ', 0); LUNG_MSG]);
    for _ in 0..50 {
        let mut a = Avversario::new(LUNG_MSG);
        let mut cq = CanaleQuantistico::new();
        cq.spedizione_fotone('X', 0);
        cq.set_fotone_in();
        a.osserva_fotone(&mut cq, 0);
        let (p, v) = a.messaggio()[0];
        assert!(p == 'Z' || p == 'X');
        if p == 'X' {
            assert_eq!(v, 0);
        }
        assert_eq!(cq.canale_quantistico, ('X', v));
        assert!(cq.letto_da_avversario && cq.fotone_in);
        let mut cp = CanalePubblico::new(0);
        a.debug_pubblica(&mut cp);
        assert_eq!(cp.dbg_avversario, a.messaggio());
    }
}

#[test]
fn passi_di_spedizione_in_ordine() {
    let mut s = Scrittore::new(2);
    s.aggiungi_fotone(true, true);
    s.aggiungi_fotone(false, false);
    let mut cq = CanaleQuantistico::new();
    assert_eq!(s.passo_spedizione(&mut cq, 0), 1);
    assert_eq!(cq.canale_quantistico, ('Z', 1));
    assert!(cq.fotone_in);
    // il fotone precedente e' ancora sul canale: si attende
    assert_eq!(s.passo_spedizione(&mut cq, 1), 1);
    assert_eq!(cq.canale_quantistico, ('Z', 1));
    cq.set_fotone_out();
    assert_eq!(s.passo_spedizione(&mut cq, 1), 2);
    assert_eq!(cq.canale_quantistico, ('X', 0));
    cq.set_fotone_out();
    // finiti i fotoni, il canale non cambia
    assert_eq!(s.passo_spedizione(&mut cq, 2), 2);
    assert!(!cq.fotone_in);
}

#[test]
fn passi_di_lettura_attendono_il_fotone() {
    let mut l = Lettore::new(LUNG_MSG);
    let mut a = Avversario::new(LUNG_MSG);
    let mut cq = CanaleQuantistico::new();
    assert_eq!(l.passo_lettura(&mut cq, 0), 0);
    assert_eq!(a.passo_lettura(&mut cq, 0), 0);
    assert_eq!(l.messaggio_ricevuto()[0], (' ', 0));
    cq.spedizione_fotone('Z', 1);
    cq.set_fotone_in();
    assert_eq!(a.passo_lettura(&mut cq, 0), 1);
    // l'Avversario non rilegge lo stesso fotone
    assert_eq!(a.passo_lettura(&mut cq, 1), 1);
    assert!(cq.letto_da_avversario && cq.fotone_in);
    assert_eq!(l.passo_lettura(&mut cq, 0), 1);
    assert!(!cq.fotone_in);
    assert_eq!(l.passo_lettura(&mut cq, 1), 1);
    let (p, _) = l.messaggio_ricevuto()[0];
    assert!(p == 'Z' || p == 'X');
}

/// Una sessione completa, nell'ordine dei thread del programma.
fn sessione(con_avversario: bool) -> (Scrittore, Lettore, CanalePubblico, bool) {
    let mut cp = CanalePubblico::new(LUNG_MSG);
    let mut cq = CanaleQuantistico::new();
    let mut s = Scrittore::new(LUNG_MSG);
    let mut l = Lettore::new(LUNG_MSG);
    let mut a = Avversario::new(LUNG_MSG);
    s.inizializzazione(&mut cp);
    for i in 0..s.numero_fotoni() {
        assert_eq!(s.passo_spedizione(&mut cq, i), i + 1);
        if con_avversario {
            assert!(cq.pronto_per_avversario());
            a.osserva_fotone(&mut cq, i);
        }
        assert!(cq.pronto_per_lettore(con_avversario));
        assert_eq!(l.passo_lettura(&mut cq, i), i + 1);
        assert!(!cq.fotone_in);
    }
    l.fine_lettura(&mut cp);
    assert!(cp.fine_lettura);
    s.pubblicazione_polarizzazione(&mut cp);
    l.verifica_polarizzazioni(&mut cp);
    assert!(!cp.pubblicazione_pronta && cp.sequenza_polarizzazioni_pronta);
    s.selezione_chiave_grezza(&mut cp);
    l.prepara_test_e_chiave(&mut cp);
    let concordi = s.selezione_test_e_chiave_finale(&mut cp);
    cp.processo_terminato();
    l.consuntiva(&cp);
    (s, l, cp, concordi)
}

#[test]
fn sessione_senza_avversario_concorda_la_chiave() {
    for _ in 0..20 {
        let (s, l, cp, concordi) = sessione(false);
        assert!(concordi);
        let m = s.messaggio_quantistico();
        let r = l.messaggio_ricevuto();
        let esito = l.esito_letture();
        for i in 0..LUNG_MSG {
            assert_eq!(esito[i], r[i].0 == m[i].0);
            if esito[i] {
                assert_eq!(r[i].1, m[i].1);
            }
        }
        assert_eq!(s.chiave_grezza(), l.chiave_grezza());
        assert_eq!(s.chiave_simmetrica(), l.chiave_simmetrica());
        assert_eq!(cp.dbg_chiave_scrittore, cp.dbg_chiave_lettore);
        assert_eq!(cp.test_avversario, bits_test(&l.chiave_grezza()));
        assert_eq!(l.chiave_simmetrica(), bits_chiave(&l.chiave_grezza()));
        assert_eq!(cp.dbg_lettore, r);
        assert_eq!(cp.sequenza_ricezione, esito);
        assert!(cp.chiave_simmetrica_ok && cp.processo_terminato);
    }
}

#[test]
fn sessione_con_avversario_e_coerente() {
    let mut rilevato = false;
    for _ in 0..20 {
        let (s, l, cp, concordi) = sessione(true);
        assert_eq!(concordi, bits_test(&s.chiave_grezza()) == bits_test(&l.chiave_grezza()));
        if concordi {
            assert_eq!(cp.dbg_chiave_scrittore, s.chiave_simmetrica());
            assert!(cp.chiave_simmetrica_ok);
        } else {
            rilevato = true;
            assert!(cp.dbg_chiave_scrittore.is_empty() && cp.dbg_chiave_lettore.is_empty());
            assert!(s.chiave_simmetrica().is_empty());
        }
    }
    // con 64 fotoni l'avversario sfugge al test con probabilita' trascurabile
    assert!(rilevato);
}
