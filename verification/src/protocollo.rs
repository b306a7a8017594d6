//! Le regole del protocollo comuni a Scrittore e Lettore: confronto delle
//! polarizzazioni, chiave grezza, bit di test (uno ogni 8, a partire dal
//! primo) e chiave simmetrica (i bit restanti).

use vstd::prelude::*;

verus! {

/// Le polarizzazioni di una sequenza di fotoni `(polarizzazione, valore)`.
pub open spec fn polarizzazioni(fotoni: Seq<(char, u8)>) -> Seq<char> {
    fotoni.map_values(|f: (char, u8)| f.0)
}

/// Esito di ciascuna lettura: vero dove la polarizzazione di lettura coincide
/// con quella pubblicata dallo Scrittore.
pub open spec fn esiti(ricevuti: Seq<(char, u8)>, pol_tx: Seq<char>) -> Seq<bool> {
    Seq::new(ricevuti.len(), |i: int| ricevuti[i].0 == pol_tx[i])
}

/// La chiave grezza: i valori dei fotoni nelle posizioni con esito positivo,
/// nell'ordine dei fotoni.
pub open spec fn chiave_grezza(fotoni: Seq<(char, u8)>, esito: Seq<bool>) -> Seq<u8>
    decreases esito.len(),
{
    if esito.len() == 0 {
        seq![]
    } else {
        let prima = chiave_grezza(fotoni, esito.drop_last());
        if esito.last() {
            prima.push(fotoni[esito.len() - 1].1)
        } else {
            prima
        }
    }
}

/// I bit di `grezza` nelle posizioni multiple di 8 (se `di_test`) oppure
/// nelle altre posizioni (se non `di_test`), nell'ordine originale.
pub open spec fn ogni_otto(grezza: Seq<u8>, di_test: bool) -> Seq<u8>
    decreases grezza.len(),
{
    if grezza.len() == 0 {
        seq![]
    } else {
        let prima = ogni_otto(grezza.drop_last(), di_test);
        if ((grezza.len() - 1) % 8 == 0) == di_test {
            prima.push(grezza.last())
        } else {
            prima
        }
    }
}

/// I bit di test: uno ogni 8 della chiave grezza, a partire dal primo.
pub open spec fn bit_di_test(grezza: Seq<u8>) -> Seq<u8> {
    ogni_otto(grezza, true)
}

/// La chiave simmetrica: la chiave grezza senza i bit di test.
pub open spec fn chiave_simmetrica(grezza: Seq<u8>) -> Seq<u8> {
    ogni_otto(grezza, false)
}

/// Numero di esiti positivi.
pub open spec fn conta_veri(esito: Seq<bool>) -> nat
    decreases esito.len(),
{
    if esito.len() == 0 {
        0
    } else {
        conta_veri(esito.drop_last()) + if esito.last() { 1nat } else { 0nat }
    }
}

/// Ogni posizione con esito positivo ha un fotone corrispondente.
pub open spec fn esiti_coperti(fotoni: Seq<(char, u8)>, esito: Seq<bool>) -> bool {
    forall|i: int| 0 <= i < esito.len() && #[trigger] esito[i] ==> i < fotoni.len()
}

/// Copia di un vettore.
pub fn copia<T: Copy>(v: &Vec<T>) -> (c: Vec<T>)
    ensures
        c@ == v@,
{
    let mut c: Vec<T> = Vec::new();
    let mut i: usize = 0;
    while i < v.len()
        invariant
            i <= v.len(),
            c@ == v@.take(i as int),
        decreases v.len() - i,
    {
        c.push(v[i]);
        i = i + 1;
        assert(c@ =~= v@.take(i as int));
    }
    assert(v@.take(v.len() as int) =~= v@);
    c
}

/// Un vettore di `n` copie di `x`.
pub fn ripetuto<T: Copy>(x: T, n: usize) -> (v: Vec<T>)
    ensures
        v@ == Seq::new(n as nat, |i: int| x),
{
    let mut v: Vec<T> = Vec::new();
    let mut i: usize = 0;
    while i < n
        invariant
            i <= n,
            v@ == Seq::new(i as nat, |j: int| x),
        decreases n - i,
    {
        v.push(x);
        i = i + 1;
        assert(v@ =~= Seq::new(i as nat, |j: int| x));
    }
    v
}

/// La chiave grezza dei `fotoni` secondo `esito`.
pub fn estrai_chiave_grezza(fotoni: &Vec<(char, u8)>, esito: &Vec<bool>) -> (grezza: Vec<u8>)
    requires
        esiti_coperti(fotoni@, esito@),
    ensures
        grezza@ == chiave_grezza(fotoni@, esito@),
{
    let mut grezza: Vec<u8> = Vec::new();
    let mut i: usize = 0;
    while i < esito.len()
        invariant
            i <= esito.len(),
            esiti_coperti(fotoni@, esito@),
            grezza@ == chiave_grezza(fotoni@, esito@.take(i as int)),
        decreases esito.len() - i,
    {
        assert(esito@.take(i + 1).drop_last() =~= esito@.take(i as int));
        if esito[i] {
            assert(esito@[i as int]);
            grezza.push(fotoni[i].1);
        }
        i = i + 1;
    }
    assert(esito@.take(esito.len() as int) =~= esito@);
    grezza
}

/// I bit di `grezza` nelle posizioni multiple di 8 (`di_test`) o nelle altre.
pub fn estrai_ogni_otto(grezza: &Vec<u8>, di_test: bool) -> (scelti: Vec<u8>)
    ensures
        scelti@ == ogni_otto(grezza@, di_test),
{
    let mut scelti: Vec<u8> = Vec::new();
    let mut i: usize = 0;
    while i < grezza.len()
        invariant
            i <= grezza.len(),
            scelti@ == ogni_otto(grezza@.take(i as int), di_test),
        decreases grezza.len() - i,
    {
        assert(grezza@.take(i + 1).drop_last() =~= grezza@.take(i as int));
        if (i % 8 == 0) == di_test {
            scelti.push(grezza[i]);
        }
        i = i + 1;
    }
    assert(grezza@.take(grezza.len() as int) =~= grezza@);
    scelti
}

/// Confronto elemento per elemento di due sequenze di bit.
pub fn stesse_sequenze(a: &Vec<u8>, b: &Vec<u8>) -> (uguali: bool)
    ensures
        uguali == (a@ == b@),
{
    if a.len() != b.len() {
        return false;
    }
    let mut i: usize = 0;
    while i < a.len()
        invariant
            i <= a.len(),
            a.len() == b.len(),
            forall|j: int| 0 <= j < i ==> a@[j] == b@[j],
        decreases a.len() - i,
    {
        if a[i] != b[i] {
            return false;
        }
        i = i + 1;
    }
    assert(a@ =~= b@);
    true
}

/// Bit di test e chiave simmetrica si spartiscono la chiave grezza: i bit di
/// test sono `ceil(n / 8)` su `n` bit grezzi, la chiave simmetrica gli altri.
pub proof fn lemma_spartizione_test(grezza: Seq<u8>)
    ensures
        bit_di_test(grezza).len() + chiave_simmetrica(grezza).len() == grezza.len(),
        bit_di_test(grezza).len() == (grezza.len() + 7) / 8,
    decreases grezza.len(),
{
    if grezza.len() > 0 {
        lemma_spartizione_test(grezza.drop_last());
    }
}

/// La chiave grezza ha un bit per ogni esito positivo.
pub proof fn lemma_lunghezza_grezza(fotoni: Seq<(char, u8)>, esito: Seq<bool>)
    ensures
        chiave_grezza(fotoni, esito).len() == conta_veri(esito),
    decreases esito.len(),
{
    if esito.len() > 0 {
        lemma_lunghezza_grezza(fotoni, esito.drop_last());
    }
}

/// Un esito positivo in piu' aggiunge in coda alla chiave grezza il valore
/// del fotone corrispondente; uno negativo la lascia com'e'.
pub proof fn lemma_grezza_un_esito_in_piu(fotoni: Seq<(char, u8)>, esito: Seq<bool>, positivo: bool)
    ensures
        positivo ==> chiave_grezza(fotoni, esito.push(positivo)) == chiave_grezza(fotoni, esito).push(
            fotoni[esito.len() as int].1,
        ),
        !positivo ==> chiave_grezza(fotoni, esito.push(positivo)) == chiave_grezza(fotoni, esito),
{
    assert(esito.push(positivo).drop_last() =~= esito);
}

/// Con tutti gli esiti positivi la chiave grezza e' la sequenza dei valori
/// dei fotoni, nell'ordine.
pub proof fn lemma_grezza_tutti_positivi(fotoni: Seq<(char, u8)>, esito: Seq<bool>)
    requires
        esito.len() <= fotoni.len(),
        forall|i: int| 0 <= i < esito.len() ==> #[trigger] esito[i],
    ensures
        chiave_grezza(fotoni, esito) == fotoni.take(esito.len() as int).map_values(
            |f: (char, u8)| f.1,
        ),
    decreases esito.len(),
{
    if esito.len() > 0 {
        let e = esito.drop_last();
        assert forall|i: int| 0 <= i < e.len() implies #[trigger] e[i] by {
            assert(esito[i]);
        }
        lemma_grezza_tutti_positivi(fotoni, e);
        assert(esito[esito.len() - 1]);
        assert(fotoni.take(esito.len() as int).map_values(|f: (char, u8)| f.1) =~= fotoni.take(
            e.len() as int,
        ).map_values(|f: (char, u8)| f.1).push(fotoni[esito.len() - 1].1));
    }
}

/// Il fotone `i` con esito positivo da' il bit della chiave grezza che ha
/// davanti tanti bit quanti sono gli esiti positivi prima di `i`: la chiave
/// grezza sono i valori dei fotoni con esito positivo, nell'ordine dei fotoni.
pub proof fn lemma_grezza_posizioni(fotoni: Seq<(char, u8)>, esito: Seq<bool>)
    ensures
        chiave_grezza(fotoni, esito).len() == conta_veri(esito),
        forall|i: int|
            0 <= i < esito.len() && #[trigger] esito[i] ==> chiave_grezza(fotoni, esito)[conta_veri(
                esito.take(i),
            ) as int] == fotoni[i].1,
    decreases esito.len(),
{
    lemma_lunghezza_grezza(fotoni, esito);
    if esito.len() > 0 {
        let e = esito.drop_last();
        let n = esito.len() - 1;
        lemma_grezza_posizioni(fotoni, e);
        assert forall|i: int|
            0 <= i < esito.len() && #[trigger] esito[i] implies chiave_grezza(fotoni, esito)[conta_veri(
            esito.take(i),
        ) as int] == fotoni[i].1 by {
            if i < n {
                assert(esito.take(i) =~= e.take(i));
                assert(e[i]);
                lemma_conta_al_piu(e.take(i), e);
            } else {
                assert(esito.take(i) =~= e);
            }
        }
    }
}

proof fn lemma_conta_al_piu(prefisso: Seq<bool>, e: Seq<bool>)
    requires
        prefisso.len() < e.len(),
        prefisso == e.take(prefisso.len() as int),
        e[prefisso.len() as int],
    ensures
        conta_veri(prefisso) < conta_veri(e),
    decreases e.len(),
{
    if prefisso.len() + 1 < e.len() {
        let d = e.drop_last();
        assert(prefisso =~= d.take(prefisso.len() as int));
        lemma_conta_al_piu(prefisso, d);
    } else {
        assert(e.drop_last() =~= prefisso);
    }
}

/// Ogni esito positivo conta uno, qualunque sia la sua posizione; uno
/// negativo non conta.
pub proof fn lemma_conta_un_esito_in_piu(esito: Seq<bool>, positivo: bool)
    ensures
        conta_veri(esito.push(positivo)) == conta_veri(esito) + if positivo { 1nat } else { 0nat },
{
    assert(esito.push(positivo).drop_last() =~= esito);
}

/// Il conteggio degli esiti positivi e' additivo sulle concatenazioni ed e'
/// il numero degli elementi veri.
pub proof fn lemma_conta_veri(a: Seq<bool>, b: Seq<bool>)
    ensures
        conta_veri(a + b) == conta_veri(a) + conta_veri(b),
        conta_veri(a) == a.filter(|x: bool| x).len(),
        conta_veri(a) <= a.len(),
    decreases b.len(),
{
    lemma_conta_filtro(a);
    if b.len() > 0 {
        assert((a + b).drop_last() =~= a + b.drop_last());
        lemma_conta_veri(a, b.drop_last());
    } else {
        assert(a + b =~= a);
    }
}

proof fn lemma_conta_filtro(a: Seq<bool>)
    ensures
        conta_veri(a) == a.filter(|x: bool| x).len(),
        conta_veri(a) <= a.len(),
    decreases a.len(),
{
    reveal(Seq::filter);
    if a.len() > 0 {
        lemma_conta_filtro(a.drop_last());
    }
}

/// I bit di test sono quelli della chiave grezza nelle posizioni 0, 8, 16, ...
pub proof fn lemma_bit_di_test_posizioni(grezza: Seq<u8>)
    ensures
        bit_di_test(grezza).len() == (grezza.len() + 7) / 8,
        forall|j: int|
            0 <= j < bit_di_test(grezza).len() ==> #[trigger] bit_di_test(grezza)[j] == grezza[8 * j],
    decreases grezza.len(),
{
    lemma_spartizione_test(grezza);
    if grezza.len() > 0 {
        let g = grezza.drop_last();
        let n = grezza.len() - 1;
        lemma_bit_di_test_posizioni(g);
        lemma_spartizione_test(g);
        assert forall|j: int| 0 <= j < bit_di_test(grezza).len() implies #[trigger] bit_di_test(
            grezza,
        )[j] == grezza[8 * j] by {
            if j < bit_di_test(g).len() {
                assert(bit_di_test(g)[j] == g[8 * j]);
                assert(8 * j < g.len());
            } else {
                assert(n % 8 == 0);
                assert(j == n / 8);
            }
        }
    }
}

/// La chiave simmetrica e' la chiave grezza senza le posizioni multiple di 8:
/// il suo bit `k` e' il bit grezzo `k + k / 7 + 1`.
pub proof fn lemma_chiave_simmetrica_posizioni(grezza: Seq<u8>)
    ensures
        chiave_simmetrica(grezza).len() == grezza.len() - (grezza.len() + 7) / 8,
        forall|k: int|
            0 <= k < chiave_simmetrica(grezza).len() ==> #[trigger] chiave_simmetrica(grezza)[k]
                == grezza[k + k / 7 + 1],
    decreases grezza.len(),
{
    lemma_spartizione_test(grezza);
    if grezza.len() > 0 {
        let g = grezza.drop_last();
        let n = grezza.len() - 1;
        lemma_chiave_simmetrica_posizioni(g);
        lemma_spartizione_test(g);
        assert forall|k: int| 0 <= k < chiave_simmetrica(grezza).len() implies #[trigger] chiave_simmetrica(
            grezza,
        )[k] == grezza[k + k / 7 + 1] by {
            if k < chiave_simmetrica(g).len() {
                assert(chiave_simmetrica(g)[k] == g[k + k / 7 + 1]);
                assert(k + k / 7 + 1 < g.len());
            } else {
                assert(n % 8 != 0);
                let q = n / 8;
                let r = n % 8;
                assert(n == 8 * q + r);
                assert(k == 7 * q + r - 1);
                assert(k / 7 == q);
            }
        }
    }
}

proof fn lemma_grezze_uguali(a: Seq<(char, u8)>, b: Seq<(char, u8)>, esito: Seq<bool>)
    requires
        esito.len() <= a.len(),
        esito.len() <= b.len(),
        forall|i: int| 0 <= i < esito.len() && #[trigger] esito[i] ==> a[i].1 == b[i].1,
    ensures
        chiave_grezza(a, esito) == chiave_grezza(b, esito),
    decreases esito.len(),
{
    if esito.len() > 0 {
        let e = esito.drop_last();
        assert forall|i: int| 0 <= i < e.len() && #[trigger] e[i] implies a[i].1 == b[i].1 by {
            assert(esito[i]);
        }
        lemma_grezze_uguali(a, b, e);
    }
}

/// Concordanza delle chiavi: se ogni fotone letto nella base di spedizione ha
/// dato il valore spedito, lo Scrittore e il Lettore, confrontando le
/// polarizzazioni pubblicate, ottengono la stessa chiave grezza, gli stessi
/// bit di test e la stessa chiave simmetrica.
pub proof fn lemma_chiavi_concordi(trasmessi: Seq<(char, u8)>, ricevuti: Seq<(char, u8)>)
    requires
        trasmessi.len() == ricevuti.len(),
        forall|i: int|
            0 <= i < ricevuti.len() && #[trigger] ricevuti[i].0 == trasmessi[i].0
                ==> ricevuti[i].1 == trasmessi[i].1,
    ensures
        ({
            let esito = esiti(ricevuti, polarizzazioni(trasmessi));
            &&& chiave_grezza(trasmessi, esito) == chiave_grezza(ricevuti, esito)
            &&& bit_di_test(chiave_grezza(trasmessi, esito)) == bit_di_test(chiave_grezza(ricevuti, esito))
            &&& chiave_simmetrica(chiave_grezza(trasmessi, esito)) == chiave_simmetrica(
                chiave_grezza(ricevuti, esito),
            )
        }),
{
    let esito = esiti(ricevuti, polarizzazioni(trasmessi));
    assert forall|i: int| 0 <= i < esito.len() && #[trigger] esito[i] implies trasmessi[i].1
        == ricevuti[i].1 by {
        assert(ricevuti[i].0 == polarizzazioni(trasmessi)[i]);
    }
    lemma_grezze_uguali(trasmessi, ricevuti, esito);
}

} // verus!
