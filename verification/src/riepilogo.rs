//! Il riepilogo finale della simulazione: statistiche sui fotoni, chiavi in
//! cifre e impaginazione delle tabelle ASCII.

use vstd::prelude::*;

use crate::protocollo::{
    bit_di_test, chiave_grezza, chiave_simmetrica, conta_veri, lemma_lunghezza_grezza,
    lemma_spartizione_test, ripetuto,
};
use crate::LUNG_MSG;
use vstd::utf8::{char_is_scalar, encode_scalar, encode_utf8};

verus! {

/// Statistiche riassuntive di una sessione.
#[derive(Debug, Clone, Copy)]
pub struct Statistiche {
    /// Fotoni totali (iniziali).
    pub totale: usize,
    /// Fotoni selezionati (chiave grezza).
    pub selezionati: usize,
    /// Fotoni scartati per differenza di polarizzazione.
    pub scartati_polarizzazione: usize,
    /// Bit scartati per il test di presenza dell'avversario (uno ogni 8).
    pub scartati_test: usize,
    /// Lunghezza della chiave finale.
    pub lunghezza_chiave: usize,
}

/// Calcola le statistiche dalla sequenza degli esiti e dalla lunghezza della
/// chiave finale dello Scrittore.
pub fn statistiche(sequenza_ricezione: &Vec<bool>, lunghezza_chiave: usize) -> (s: Statistiche)
    requires
        conta_veri(sequenza_ricezione@) <= LUNG_MSG,
    ensures
        s.totale == LUNG_MSG,
        s.selezionati == conta_veri(sequenza_ricezione@),
        s.scartati_polarizzazione == LUNG_MSG - conta_veri(sequenza_ricezione@),
        s.scartati_test == (conta_veri(sequenza_ricezione@) + 7) / 8,
        s.lunghezza_chiave == lunghezza_chiave,
{
    let mut selezionati: usize = 0;
    let mut i: usize = 0;
    while i < sequenza_ricezione.len()
        invariant
            i <= sequenza_ricezione.len(),
            selezionati == conta_veri(sequenza_ricezione@.take(i as int)),
            conta_veri(sequenza_ricezione@) <= LUNG_MSG,
        decreases sequenza_ricezione.len() - i,
    {
        assert(sequenza_ricezione@.take(i + 1).drop_last() =~= sequenza_ricezione@.take(i as int));
        proof {
            lemma_conta_prefisso(sequenza_ricezione@, i as int + 1);
        }
        if sequenza_ricezione[i] {
            selezionati = selezionati + 1;
        }
        i = i + 1;
    }
    assert(sequenza_ricezione@.take(i as int) =~= sequenza_ricezione@);
    Statistiche {
        totale: LUNG_MSG,
        selezionati,
        scartati_polarizzazione: LUNG_MSG - selezionati,
        scartati_test: (selezionati + 7) / 8,
        lunghezza_chiave,
    }
}

proof fn lemma_conta_prefisso(e: Seq<bool>, n: int)
    requires
        0 <= n <= e.len(),
    ensures
        conta_veri(e.take(n)) <= conta_veri(e),
    decreases e.len() - n,
{
    if n < e.len() {
        lemma_conta_prefisso(e, n + 1);
        assert(e.take(n + 1).drop_last() =~= e.take(n));
    } else {
        assert(e.take(n) =~= e);
    }
}

/// Le statistiche sono coerenti con le chiavi: i selezionati sono i bit
/// della chiave grezza, gli scartati per il test sono i bit di test e, quando
/// il test e' superato, la chiave finale ha i selezionati meno gli scartati.
pub proof fn lemma_statistiche_coerenti(fotoni: Seq<(char, u8)>, esito: Seq<bool>)
    ensures
        ({
            let grezza = chiave_grezza(fotoni, esito);
            &&& grezza.len() == conta_veri(esito)
            &&& bit_di_test(grezza).len() == (conta_veri(esito) + 7) / 8
            &&& chiave_simmetrica(grezza).len() == conta_veri(esito) - (conta_veri(esito) + 7) / 8
        }),
{
    lemma_lunghezza_grezza(fotoni, esito);
    lemma_spartizione_test(chiave_grezza(fotoni, esito));
}

/// Una chiave scritta in cifre: `'1'` per i bit 1, `'0'` per tutti gli altri.
pub fn cifre_chiave(chiave: &Vec<u8>) -> (cifre: Vec<char>)
    ensures
        cifre@ == chiave@.map_values(|b: u8| if b == 1 { '1' } else { '0' }),
{
    let mut cifre: Vec<char> = Vec::new();
    let mut i: usize = 0;
    while i < chiave.len()
        invariant
            i <= chiave.len(),
            cifre@ == chiave@.take(i as int).map_values(|b: u8| if b == 1 { '1' } else { '0' }),
        decreases chiave.len() - i,
    {
        if chiave[i] == 1 {
            cifre.push('1');
        } else {
            cifre.push('0');
        }
        i = i + 1;
        assert(cifre@ =~= chiave@.take(i as int).map_values(
            |b: u8| if b == 1 { '1' } else { '0' },
        ));
    }
    assert(chiave@.take(i as int) =~= chiave@);
    cifre
}

/// Byte occupati da un carattere nella codifica UTF-8.
pub open spec fn byte_utf8(c: char) -> nat {
    if (c as u32) < 0x80 {
        1
    } else if (c as u32) < 0x800 {
        2
    } else if (c as u32) < 0x10000 {
        3
    } else {
        4
    }
}

/// Lunghezza in byte di un testo codificato in UTF-8 (come `String::len`).
pub open spec fn lunghezza_utf8(testo: Seq<char>) -> nat
    decreases testo.len(),
{
    if testo.len() == 0 {
        0
    } else {
        lunghezza_utf8(testo.drop_last()) + byte_utf8(testo.last())
    }
}

/// `byte_utf8(c)` e' la lunghezza della codifica UTF-8 di `c`: 1 byte sotto
/// U+0080, 2 fino a U+07FF, 3 fino a U+FFFF, 4 oltre.
pub proof fn lemma_byte_utf8_codifica(c: char)
    ensures
        byte_utf8(c) == encode_scalar(c as u32).len(),
{
    char_is_scalar(c);
}

proof fn lemma_codifica_in_coda(a: Seq<char>, c: char)
    ensures
        encode_utf8(a.push(c)) == encode_utf8(a) + encode_scalar(c as u32),
    decreases a.len(),
{
    if a.len() == 0 {
        assert(a.push(c).drop_first() =~= Seq::<char>::empty());
        assert(encode_utf8(a.push(c).drop_first()) == Seq::<u8>::empty());
        assert(encode_utf8(a) == Seq::<u8>::empty());
        assert(encode_utf8(a.push(c)) =~= encode_utf8(a) + encode_scalar(c as u32));
    } else {
        assert(a.push(c).drop_first() =~= a.drop_first().push(c));
        assert(a.push(c)[0] == a[0]);
        lemma_codifica_in_coda(a.drop_first(), c);
        assert(encode_utf8(a.push(c)) =~= encode_utf8(a) + encode_scalar(c as u32));
    }
}

/// La lunghezza in byte di un testo e' quella della sua codifica UTF-8, cioe'
/// quella che `String::len` restituisce.
pub proof fn lemma_lunghezza_utf8_codifica(testo: Seq<char>)
    ensures
        lunghezza_utf8(testo) == encode_utf8(testo).len(),
    decreases testo.len(),
{
    if testo.len() > 0 {
        let d = testo.drop_last();
        lemma_lunghezza_utf8_codifica(d);
        assert(testo =~= d.push(testo.last()));
        lemma_codifica_in_coda(d, testo.last());
        lemma_byte_utf8_codifica(testo.last());
    } else {
        assert(encode_utf8(testo) == Seq::<u8>::empty());
    }
}

/// La lunghezza in byte di una concatenazione e' la somma delle lunghezze.
pub proof fn lemma_utf8_concatenazione(a: Seq<char>, b: Seq<char>)
    ensures
        lunghezza_utf8(a + b) == lunghezza_utf8(a) + lunghezza_utf8(b),
    decreases b.len(),
{
    if b.len() > 0 {
        assert((a + b).drop_last() =~= a + b.drop_last());
        lemma_utf8_concatenazione(a, b.drop_last());
    } else {
        assert(a + b =~= a);
    }
}

proof fn lemma_utf8_spazi(n: nat)
    ensures
        lunghezza_utf8(Seq::new(n, |i: int| ' ')) == n,
    decreases n,
{
    if n > 0 {
        assert(Seq::new(n, |i: int| ' ').drop_last() =~= Seq::new((n - 1) as nat, |i: int| ' '));
        lemma_utf8_spazi((n - 1) as nat);
    }
}

proof fn lemma_utf8_un_byte(c: char)
    requires
        (c as u32) < 0x80,
    ensures
        lunghezza_utf8(seq![c]) == 1,
{
    let s = seq![c];
    assert(s.drop_last() =~= Seq::<char>::empty());
    assert(lunghezza_utf8(Seq::<char>::empty()) == 0);
    assert(s.last() == c);
    assert(byte_utf8(c) == 1);
    assert(lunghezza_utf8(s) == lunghezza_utf8(s.drop_last()) + byte_utf8(s.last()));
}

proof fn lemma_utf8_coppia(a: char, b: char)
    requires
        (a as u32) < 0x80,
        (b as u32) < 0x80,
    ensures
        lunghezza_utf8(seq![a, b]) == 2,
{
    lemma_utf8_un_byte(a);
    lemma_utf8_un_byte(b);
    assert(seq![a, b] =~= seq![a] + seq![b]);
    lemma_utf8_concatenazione(seq![a], seq![b]);
}

proof fn lemma_utf8_prefisso(s: Seq<char>, i: int)
    requires
        0 <= i <= s.len(),
    ensures
        lunghezza_utf8(s.take(i)) <= lunghezza_utf8(s),
{
    assert(s =~= s.take(i) + s.skip(i));
    lemma_utf8_concatenazione(s.take(i), s.skip(i));
}

/// Byte UTF-8 di un carattere.
fn byte_utf8_carattere(c: char) -> (n: usize)
    ensures
        n == byte_utf8(c),
        n == encode_scalar(c as u32).len(),
{
    proof {
        lemma_byte_utf8_codifica(c);
    }
    let v = c as u32;
    if v < 0x80 {
        1
    } else if v < 0x800 {
        2
    } else if v < 0x10000 {
        3
    } else {
        4
    }
}

/// Lunghezza in byte UTF-8 di una cella.
fn lunghezza_utf8_cella(c: &Vec<char>) -> (n: usize)
    requires
        lunghezza_utf8(c@) <= usize::MAX,
    ensures
        n == lunghezza_utf8(c@),
        n == encode_utf8(c@).len(),
{
    proof {
        lemma_lunghezza_utf8_codifica(c@);
    }
    let mut n: usize = 0;
    let mut i: usize = 0;
    while i < c.len()
        invariant
            i <= c.len(),
            lunghezza_utf8(c@) <= usize::MAX,
            n == lunghezza_utf8(c@.take(i as int)),
        decreases c.len() - i,
    {
        proof {
            lemma_utf8_prefisso(c@, i + 1);
            assert(c@.take(i + 1).drop_last() =~= c@.take(i as int));
        }
        n = n + byte_utf8_carattere(c[i]);
        i = i + 1;
    }
    assert(c@.take(i as int) =~= c@);
    n
}

/// Una tabella si puo' impaginare quando nessuna riga ha piu' celle della
/// prima (l'intestazione).
pub open spec fn tabella_valida(righe: Seq<Seq<Seq<char>>>) -> bool {
    forall|k: int| 0 <= k < righe.len() ==> #[trigger] righe[k].len() <= righe[0].len()
}

/// Ogni cella ha una lunghezza in byte che sta in un `usize`, come quella di
/// una `String`.
pub open spec fn celle_rappresentabili(righe: Seq<Seq<Seq<char>>>) -> bool {
    forall|k: int, col: int|
        0 <= k < righe.len() && 0 <= col < righe[k].len() ==> lunghezza_utf8(
            #[trigger] righe[k][col],
        ) <= usize::MAX
}

/// Larghezza in byte della colonna `col` considerando le prime `n` righe: la
/// cella piu' lunga.
pub open spec fn larghezza_colonna(righe: Seq<Seq<Seq<char>>>, n: int, col: int) -> nat
    decreases n,
{
    if n <= 0 {
        0
    } else {
        let prima = larghezza_colonna(righe, n - 1, col);
        let qui = if 0 <= col < righe[n - 1].len() {
            lunghezza_utf8(righe[n - 1][col])
        } else {
            0
        };
        if qui > prima {
            qui
        } else {
            prima
        }
    }
}

/// Le larghezze in byte delle colonne della tabella: tante quante le celle
/// della prima riga.
pub open spec fn larghezze(righe: Seq<Seq<Seq<char>>>) -> Seq<nat> {
    let colonne = if righe.len() == 0 {
        0
    } else {
        righe[0].len()
    };
    Seq::new(colonne, |c: int| larghezza_colonna(righe, righe.len() as int, c))
}

/// Una cella impaginata: `"| "`, il contenuto, gli spazi che mancano ai suoi
/// byte per arrivare alla larghezza della colonna e uno spazio.
pub open spec fn cella(contenuto: Seq<char>, larghezza: int) -> Seq<char> {
    seq!['|', ' '] + contenuto + Seq::new(
        (larghezza - lunghezza_utf8(contenuto)) as nat,
        |i: int| ' ',
    ) + seq![' ']
}

pub open spec fn celle(riga: Seq<Seq<char>>, larghezze: Seq<nat>) -> Seq<char>
    decreases riga.len(),
{
    if riga.len() == 0 {
        seq![]
    } else {
        celle(riga.drop_last(), larghezze) + cella(riga.last(), larghezze[riga.len() - 1] as int)
    }
}

/// Una riga impaginata: le sue celle e la barra finale.
pub open spec fn riga_impaginata(riga: Seq<Seq<char>>, larghezze: Seq<nat>) -> Seq<char> {
    celle(riga, larghezze) + seq!['|']
}

proof fn lemma_larghezza_massima(righe: Seq<Seq<Seq<char>>>, n: int, k: int, col: int)
    requires
        0 <= k < n <= righe.len(),
        0 <= col < righe[k].len(),
    ensures
        lunghezza_utf8(righe[k][col]) <= larghezza_colonna(righe, n, col),
    decreases n,
{
    if k < n - 1 {
        lemma_larghezza_massima(righe, n - 1, k, col);
    }
}

/// Ogni cella sta, in byte, nella larghezza della sua colonna.
pub proof fn lemma_celle_contenute(righe: Seq<Seq<Seq<char>>>, k: int)
    requires
        tabella_valida(righe),
        0 <= k < righe.len(),
    ensures
        forall|col: int|
            0 <= col < righe[k].len() ==> lunghezza_utf8(#[trigger] righe[k][col]) <= larghezze(
                righe,
            )[col],
{
    assert(righe[k].len() <= righe[0].len());
    assert forall|col: int| 0 <= col < righe[k].len() implies lunghezza_utf8(
        #[trigger] righe[k][col],
    ) <= larghezze(righe)[col] by {
        lemma_larghezza_massima(righe, righe.len() as int, k, col);
    }
}

pub open spec fn somma_larghezze(larghezze: Seq<nat>, n: int) -> nat
    decreases n,
{
    if n <= 0 {
        0
    } else {
        somma_larghezze(larghezze, n - 1) + larghezze[n - 1] + 3
    }
}

proof fn lemma_byte_celle(riga: Seq<Seq<char>>, larghezze: Seq<nat>)
    requires
        riga.len() <= larghezze.len(),
        forall|col: int|
            0 <= col < riga.len() ==> lunghezza_utf8(#[trigger] riga[col]) <= larghezze[col],
    ensures
        lunghezza_utf8(celle(riga, larghezze)) == somma_larghezze(larghezze, riga.len() as int),
    decreases riga.len(),
{
    if riga.len() > 0 {
        let r = riga.drop_last();
        assert forall|col: int| 0 <= col < r.len() implies lunghezza_utf8(#[trigger] r[col])
            <= larghezze[col] by {
            assert(lunghezza_utf8(riga[col]) <= larghezze[col]);
        }
        lemma_byte_celle(r, larghezze);
        let c = riga.last();
        let w = larghezze[riga.len() - 1] as int;
        assert(lunghezza_utf8(c) <= w);
        let spazi = Seq::new((w - lunghezza_utf8(c)) as nat, |i: int| ' ');
        lemma_utf8_spazi((w - lunghezza_utf8(c)) as nat);
        lemma_utf8_un_byte('|');
        lemma_utf8_un_byte(' ');
        lemma_utf8_coppia('|', ' ');
        lemma_utf8_concatenazione(seq!['|', ' '], c);
        lemma_utf8_concatenazione(seq!['|', ' '] + c, spazi);
        lemma_utf8_concatenazione(seq!['|', ' '] + c + spazi, seq![' ']);
        lemma_utf8_concatenazione(celle(r, larghezze), cella(c, w));
    }
}

/// Tabella allineata: due righe con lo stesso numero di celle vengono
/// impaginate con lo stesso numero di byte, perche' ogni colonna ha la
/// stessa larghezza in byte in tutte le righe.
pub proof fn lemma_righe_allineate(righe: Seq<Seq<Seq<char>>>, a: int, b: int)
    requires
        tabella_valida(righe),
        0 <= a < righe.len(),
        0 <= b < righe.len(),
        righe[a].len() == righe[b].len(),
    ensures
        lunghezza_utf8(riga_impaginata(righe[a], larghezze(righe))) == lunghezza_utf8(
            riga_impaginata(righe[b], larghezze(righe)),
        ),
        lunghezza_utf8(riga_impaginata(righe[a], larghezze(righe))) == somma_larghezze(
            larghezze(righe),
            righe[a].len() as int,
        ) + 1,
{
    lemma_celle_contenute(righe, a);
    lemma_celle_contenute(righe, b);
    assert(righe[a].len() <= righe[0].len());
    lemma_byte_celle(righe[a], larghezze(righe));
    lemma_byte_celle(righe[b], larghezze(righe));
    lemma_utf8_un_byte('|');
    lemma_utf8_concatenazione(celle(righe[a], larghezze(righe)), seq!['|']);
    lemma_utf8_concatenazione(celle(righe[b], larghezze(righe)), seq!['|']);
}

/// Le larghezze delle colonne: per ogni colonna, i byte della cella piu'
/// lunga.
pub fn larghezze_colonne(righe: &Vec<Vec<Vec<char>>>) -> (l: Vec<usize>)
    requires
        tabella_valida(righe.deep_view()),
        celle_rappresentabili(righe.deep_view()),
    ensures
        l@.len() == larghezze(righe.deep_view()).len(),
        forall|c: int| 0 <= c < l@.len() ==> l@[c] == #[trigger] larghezze(righe.deep_view())[c],
{
    let ghost t = righe.deep_view();
    let colonne: usize = if righe.len() == 0 {
        0
    } else {
        righe[0].len()
    };
    let mut l = ripetuto(0usize, colonne);
    let mut r: usize = 0;
    while r < righe.len()
        invariant
            t == righe.deep_view(),
            tabella_valida(t),
            celle_rappresentabili(t),
            r <= righe.len(),
            colonne == larghezze(t).len(),
            l@.len() == colonne,
            forall|c: int| 0 <= c < colonne ==> l@[c] == larghezza_colonna(t, r as int, c),
        decreases righe.len() - r,
    {
        let riga = &righe[r];
        assert(t[r as int] == riga.deep_view());
        assert(riga.len() <= colonne) by {
            assert(t[r as int].len() <= t[0].len());
        }
        let mut i: usize = 0;
        while i < riga.len()
            invariant
                t == righe.deep_view(),
                celle_rappresentabili(t),
                r < righe.len(),
                riga == &righe[r as int],
                t[r as int] == riga.deep_view(),
                i <= riga.len(),
                riga.len() <= colonne,
                l@.len() == colonne,
                forall|c: int| 0 <= c < i ==> l@[c] == larghezza_colonna(t, r + 1, c),
                forall|c: int| i <= c < colonne ==> l@[c] == larghezza_colonna(t, r as int, c),
            decreases riga.len() - i,
        {
            assert(t[r as int][i as int] == riga[i as int]@);
            assert(lunghezza_utf8(t[r as int][i as int]) <= usize::MAX);
            let n = lunghezza_utf8_cella(&riga[i]);
            if n > l[i] {
                l.set(i, n);
            }
            i = i + 1;
        }
        r = r + 1;
    }
    l
}

/// Aggiunge in coda i caratteri di `c`.
fn estendi(linea: &mut Vec<char>, c: &Vec<char>)
    ensures
        final(linea)@ == old(linea)@ + c@,
{
    let mut i: usize = 0;
    while i < c.len()
        invariant
            i <= c.len(),
            linea@ == old(linea)@ + c@.take(i as int),
        decreases c.len() - i,
    {
        linea.push(c[i]);
        i = i + 1;
        assert(linea@ =~= old(linea)@ + c@.take(i as int));
    }
    assert(c@.take(i as int) =~= c@);
}

/// Impagina una riga della tabella con le larghezze in byte date.
pub fn formatta_riga(riga: &Vec<Vec<char>>, larghezze: &Vec<usize>) -> (linea: Vec<char>)
    requires
        riga.len() <= larghezze.len(),
        forall|col: int|
            0 <= col < riga.len() ==> lunghezza_utf8(#[trigger] riga@[col]@) <= larghezze@[col],
    ensures
        linea@ == riga_impaginata(riga.deep_view(), larghezze@.map_values(|x: usize| x as nat)),
{
    let ghost w = larghezze@.map_values(|x: usize| x as nat);
    let ghost t = riga.deep_view();
    let mut linea: Vec<char> = Vec::new();
    let mut i: usize = 0;
    while i < riga.len()
        invariant
            t == riga.deep_view(),
            w == larghezze@.map_values(|x: usize| x as nat),
            i <= riga.len(),
            riga.len() <= larghezze.len(),
            forall|col: int|
                0 <= col < riga.len() ==> lunghezza_utf8(#[trigger] riga@[col]@)
                    <= larghezze@[col],
            linea@ == celle(t.take(i as int), w),
        decreases riga.len() - i,
    {
        let ghost prima = linea@;
        let c = &riga[i];
        assert(t[i as int] == c@);
        assert(lunghezza_utf8(c@) <= larghezze@[i as int]);
        linea.push('|');
        linea.push(' ');
        estendi(&mut linea, c);
        let pad = larghezze[i] - lunghezza_utf8_cella(c);
        let spazi = ripetuto(' ', pad);
        estendi(&mut linea, &spazi);
        linea.push(' ');
        i = i + 1;
        assert(t.take(i as int).drop_last() =~= t.take(i - 1));
        assert(linea@ =~= prima + cella(c@, w[i - 1] as int));
    }
    assert(t.take(i as int) =~= t);
    linea.push('|');
    linea
}

/// Impagina tutta la tabella: una linea per riga, con colonne allineate.
pub fn formatta_tabella(righe: &Vec<Vec<Vec<char>>>) -> (linee: Vec<Vec<char>>)
    requires
        tabella_valida(righe.deep_view()),
        celle_rappresentabili(righe.deep_view()),
    ensures
        linee@.len() == righe@.len(),
        forall|k: int|
            0 <= k < linee@.len() ==> #[trigger] linee@[k]@ == riga_impaginata(
                righe.deep_view()[k],
                larghezze(righe.deep_view()),
            ),
{
    let ghost t = righe.deep_view();
    let l = larghezze_colonne(righe);
    assert(l@.map_values(|x: usize| x as nat) =~= larghezze(t));
    let mut linee: Vec<Vec<char>> = Vec::new();
    let mut k: usize = 0;
    while k < righe.len()
        invariant
            t == righe.deep_view(),
            tabella_valida(t),
            k <= righe.len(),
            l@.map_values(|x: usize| x as nat) == larghezze(t),
            l@.len() == larghezze(t).len(),
            linee@.len() == k,
            forall|j: int|
                0 <= j < k ==> #[trigger] linee@[j]@ == riga_impaginata(t[j], larghezze(t)),
        decreases righe.len() - k,
    {
        proof {
            lemma_celle_contenute(t, k as int);
        }
        let riga = &righe[k];
        assert(t[k as int] == riga.deep_view());
        assert(t[k as int].len() <= t[0].len());
        assert(riga.len() <= l.len());
        assert forall|col: int| 0 <= col < riga.len() implies lunghezza_utf8(
            #[trigger] riga@[col]@,
        ) <= l@[col] by {
            assert(t[k as int][col] == riga@[col]@);
            assert(col < l@.len());
            assert(l@.map_values(|x: usize| x as nat)[col] == l@[col]);
        }
        let linea = formatta_riga(riga, &l);
        linee.push(linea);
        k = k + 1;
    }
    linee
}

} // verus!
