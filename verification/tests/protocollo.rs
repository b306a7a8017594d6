use bb84::protocollo::{copia, estrai_chiave_grezza, estrai_ogni_otto, ripetuto, stesse_sequenze};

#[test]
fn chiave_grezza_dagli_esiti() {
    let fotoni = vec![('Z', 1), ('X', 0), ('Z', 0), ('X', 1), ('X', 1)];
    let esito = vec![true, false, true, true, false];
    assert_eq!(estrai_chiave_grezza(&fotoni, &esito), vec![1, 0, 1]);
    assert_eq!(estrai_chiave_grezza(&fotoni, &vec![]), Vec::<u8>::new());
    // esiti negativi oltre la fine dei fotoni sono ammessi
    assert_eq!(estrai_chiave_grezza(&fotoni, &vec![false, false, false, false, true, false, false]), vec![1]);
}

#[test]
fn bit_di_test_uno_ogni_otto() {
    let grezza: Vec<u8> = (0..17).map(|i| (i % 3 == 0) as u8).collect();
    let test = estrai_ogni_otto(&grezza, true);
    let chiave = estrai_ogni_otto(&grezza, false);
    assert_eq!(test, vec![grezza[0], grezza[8], grezza[16]]);
    assert_eq!(test.len(), (17 + 7) / 8);
    assert_eq!(test.len() + chiave.len(), 17);
    let attesa: Vec<u8> = grezza.iter().enumerate().filter(|(i, _)| i % 8 != 0).map(|(_, b)| *b).collect();
    assert_eq!(chiave, attesa);
}

#[test]
fn spartizione_sulle_lunghezze() {
    for n in 0..40usize {
        let grezza = vec![1u8; n];
        let test = estrai_ogni_otto(&grezza, true);
        let chiave = estrai_ogni_otto(&grezza, false);
        assert_eq!(test.len(), (n + 7) / 8);
        assert_eq!(test.len() + chiave.len(), n);
    }
}

#[test]
fn confronto_sequenze() {
    assert!(stesse_sequenze(&vec![1, 0, 1], &vec![1, 0, 1]));
    assert!(!stesse_sequenze(&vec![1, 0, 1], &vec![1, 1, 1]));
    assert!(!stesse_sequenze(&vec![1, 0], &vec![1, 0, 1]));
    assert!(stesse_sequenze(&vec![], &vec![]));
}

#[test]
fn copie_e_ripetizioni() {
    assert_eq!(copia(&vec![('Z', 1), ('X', 0)]), vec![('Z', 1), ('X', 0)]);
    assert_eq!(ripetuto('a', 3), vec!['a', 'a', 'a']);
    assert_eq!(ripetuto(0u8, 0), Vec::<u8>::new());
}
