use bb84::canale_pubblico::CanalePubblico;
use bb84::canale_quantistico::CanaleQuantistico;
use bb84::casuale::{bit_casuale, moneta, polarizzazione_da_moneta, valore_da_moneta};

#[test]
fn canale_quantistico_iniziale() {
    let cq = CanaleQuantistico::new();
    assert_eq!(cq.canale_quantistico, (' ', 0));
    assert!(!cq.fotone_in);
    assert!(!cq.letto_da_avversario);
}

#[test]
fn spedizione_azzera_lettura_avversario() {
    let mut cq = CanaleQuantistico::new();
    cq.letto_da_avversario = true;
    cq.spedizione_fotone('X', 1);
    assert_eq!(cq.canale_quantistico, ('X', 1));
    assert!(!cq.letto_da_avversario);
    assert!(!cq.fotone_in);
}

#[test]
fn stessa_base_rilegge_il_valore_spedito() {
    let mut cq = CanaleQuantistico::new();
    cq.spedizione_fotone('Z', 1);
    assert_eq!(cq.misura_fotone('Z', 0), 1);
    assert_eq!(cq.canale_quantistico, ('Z', 1));
    for _ in 0..50 {
        assert_eq!(cq.lettura_fotone('Z'), 1);
        assert_eq!(cq.canale_quantistico, ('Z', 1));
    }
}

#[test]
fn base_diversa_fa_collassare_il_fotone() {
    let mut cq = CanaleQuantistico::new();
    cq.spedizione_fotone('Z', 1);
    assert_eq!(cq.misura_fotone('X', 0), 0);
    assert_eq!(cq.canale_quantistico, ('Z', 0));
    // la base di spedizione ora legge il valore del collasso
    assert_eq!(cq.misura_fotone('Z', 1), 0);
}

#[test]
fn lettura_con_base_diversa_resta_sul_canale() {
    let mut visti = [false; 2];
    for _ in 0..200 {
        let mut cq = CanaleQuantistico::new();
        cq.spedizione_fotone('Z', 7);
        let letto = cq.lettura_fotone('X');
        assert!(letto <= 1);
        assert_eq!(cq.canale_quantistico, ('Z', letto));
        visti[letto as usize] = true;
    }
    assert!(visti[0] && visti[1]);
}

#[test]
fn ordine_di_lettura_con_avversario() {
    let mut cq = CanaleQuantistico::new();
    assert!(!cq.pronto_per_avversario());
    assert!(!cq.pronto_per_lettore(true));
    cq.spedizione_fotone('X', 0);
    cq.set_fotone_in();
    assert!(cq.pronto_per_avversario());
    assert!(!cq.pronto_per_lettore(true));
    assert!(cq.pronto_per_lettore(false));
    cq.mark_letto_da_avversario();
    assert!(!cq.pronto_per_avversario());
    assert!(cq.pronto_per_lettore(true));
    cq.set_fotone_out();
    assert!(!cq.pronto_per_lettore(true));
    assert!(!cq.pronto_per_lettore(false));
    assert!(!cq.pronto_per_avversario());
}

#[test]
fn monete_e_bit_casuali() {
    let mut teste = 0;
    let mut valori = [0usize; 2];
    for _ in 0..400 {
        if moneta() {
            teste += 1;
        }
        let b = bit_casuale();
        assert!(b <= 1);
        valori[b as usize] += 1;
    }
    assert!(teste > 0 && teste < 400);
    assert!(valori[0] > 0 && valori[1] > 0);
}

#[test]
fn scelte_da_moneta() {
    assert_eq!(polarizzazione_da_moneta(true), 'Z');
    assert_eq!(polarizzazione_da_moneta(false), 'X');
    assert_eq!(valore_da_moneta(true), 1);
    assert_eq!(valore_da_moneta(false), 0);
}

#[test]
fn canale_pubblico_iniziale() {
    let cp = CanalePubblico::new(5);
    assert_eq!(cp.canale_pubblico, vec![' '; 5]);
    assert_eq!(cp.sequenza_ricezione, vec![false; 5]);
    assert!(!cp.pubblicazione_pronta);
    assert!(!cp.fine_lettura);
    assert!(!cp.sequenza_polarizzazioni_pronta);
    assert!(!cp.test_avversario_pronto);
    assert!(!cp.chiave_simmetrica_ok);
    assert!(!cp.processo_terminato);
    assert!(cp.test_avversario.is_empty());
    assert!(cp.dbg_scrittore.is_empty());
    assert!(cp.dbg_avversario.is_empty());
    assert!(cp.dbg_lettore.is_empty());
    assert!(cp.dbg_chiave_scrittore.is_empty());
    assert!(cp.dbg_chiave_lettore.is_empty());
}

#[test]
fn consegna_delle_tre_caselle() {
    let mut cp = CanalePubblico::new(3);
    cp.pubblica_polarizzazioni(vec!['Z', 'X', 'Z']);
    assert!(cp.pubblicazione_pronta);
    assert_eq!(cp.leggi_polarizzazioni(), vec!['Z', 'X', 'Z']);
    assert!(!cp.pubblicazione_pronta);

    cp.spedizione_sequenza(vec![true, false, true]);
    assert!(cp.sequenza_polarizzazioni_pronta);
    assert_eq!(cp.lettura_sequenza(), vec![true, false, true]);
    assert!(!cp.sequenza_polarizzazioni_pronta);

    cp.scrittura_test_avversario(vec![1, 0]);
    assert!(cp.test_avversario_pronto);
    assert_eq!(cp.lettura_test_avversario(), vec![1, 0]);
    assert!(!cp.test_avversario_pronto);
    // la lettura non svuota le caselle
    assert_eq!(cp.canale_pubblico, vec!['Z', 'X', 'Z']);
    assert_eq!(cp.test_avversario, vec![1, 0]);
}

#[test]
fn flag_e_campi_di_riepilogo() {
    let mut cp = CanalePubblico::new(0);
    cp.fine_lettura();
    cp.chiave_simmetrica_ok();
    cp.processo_terminato();
    assert!(cp.fine_lettura && cp.chiave_simmetrica_ok && cp.processo_terminato);
    cp.dbg_set_scrittore_seq(vec![('Z', 1)]);
    cp.dbg_set_avversario_seq(vec![('X', 0)]);
    cp.dbg_set_lettore_seq(vec![('Z', 1), ('X', 1)]);
    cp.dbg_set_chiave_scrittore(vec![1, 1]);
    cp.dbg_set_chiave_lettore(vec![0]);
    assert_eq!(cp.dbg_scrittore, vec![('Z', 1)]);
    assert_eq!(cp.dbg_avversario, vec![('X', 0)]);
    assert_eq!(cp.dbg_lettore, vec![('Z', 1), ('X', 1)]);
    assert_eq!(cp.dbg_chiave_scrittore, vec![1, 1]);
    assert_eq!(cp.dbg_chiave_lettore, vec![0]);
}
