use bb84::riepilogo::{cifre_chiave, formatta_riga, formatta_tabella, larghezze_colonne, statistiche};
use bb84::LUNG_MSG;

fn celle(riga: &[&str]) -> Vec<Vec<char>> {
    riga.iter().map(|c| c.chars().collect()).collect()
}

fn testo(linea: &[char]) -> String {
    linea.iter().collect()
}

#[test]
fn statistiche_di_una_sessione() {
    let mut seq = vec![false; LUNG_MSG];
    for i in 0..17 {
        seq[i * 3] = true;
    }
    let s = statistiche(&seq, 14);
    assert_eq!(s.totale, LUNG_MSG);
    assert_eq!(s.selezionati, 17);
    assert_eq!(s.scartati_polarizzazione, LUNG_MSG - 17);
    assert_eq!(s.scartati_test, 3);
    assert_eq!(s.lunghezza_chiave, 14);
    let vuota = statistiche(&vec![], 0);
    assert_eq!((vuota.selezionati, vuota.scartati_polarizzazione, vuota.scartati_test), (0, LUNG_MSG, 0));
}

#[test]
fn chiave_in_cifre() {
    assert_eq!(testo(&cifre_chiave(&vec![1, 0, 1, 1, 0, 7])), "101100");
    assert!(cifre_chiave(&vec![]).is_empty());
}

#[test]
fn larghezze_delle_colonne() {
    let righe = vec![celle(&["Scrittore", "Lettore"]), celle(&["(Z,1)", "(X,0)"]), celle(&["", "lunghissimo"])];
    assert_eq!(larghezze_colonne(&righe), vec![9, 11]);
    assert_eq!(larghezze_colonne(&vec![]), Vec::<usize>::new());
}

#[test]
fn tabella_impaginata() {
    let righe = vec![celle(&["Scrittore", "Lettore"]), celle(&["(Z,1)", "(X,0)"]), celle(&["ab"])];
    let linee: Vec<String> = formatta_tabella(&righe).iter().map(|l| testo(l)).collect();
    assert_eq!(linee, vec![
        "| Scrittore | Lettore |".to_string(),
        "| (Z,1)     | (X,0)   |".to_string(),
        "| ab        |".to_string(),
    ]);
    assert_eq!(linee[0].len(), linee[1].len());
    assert_eq!(testo(&formatta_riga(&celle(&["a"]), &vec![3, 4])), "| a   |");
    assert_eq!(testo(&formatta_riga(&vec![], &vec![])), "|");
}

#[test]
fn larghezze_in_byte_utf8() {
    // `à` occupa 2 byte: la colonna e' larga 2 e la `b` riceve due spazi
    let righe = vec![celle(&["à"]), celle(&["b"])];
    assert_eq!(larghezze_colonne(&righe), vec![2]);
    let linee: Vec<String> = formatta_tabella(&righe).iter().map(|l| testo(l)).collect();
    assert_eq!(linee, vec!["| à |".to_string(), "| b  |".to_string()]);
    assert_eq!(linee[0].len(), 6);
    assert_eq!(linee[1].len(), 6);
    // caratteri di 3 e 4 byte
    let righe = vec![celle(&["€", "😀"]), celle(&["ab", "x"])];
    assert_eq!(larghezze_colonne(&righe), vec![3, 4]);
    let linee: Vec<String> = formatta_tabella(&righe).iter().map(|l| testo(l)).collect();
    assert_eq!(linee, vec!["| € | 😀 |".to_string(), "| ab  | x    |".to_string()]);
    assert_eq!(linee[0].len(), linee[1].len());
}
