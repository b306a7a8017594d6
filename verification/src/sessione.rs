//! Le proprieta' di una sessione intera, composta dai passi delle parti.

use vstd::prelude::*;

use crate::canale_quantistico::CanaleQuantistico;
use crate::lettore::StatoLettore;
use crate::protocollo::{
    bit_di_test, chiave_grezza, chiave_simmetrica, esiti, lemma_chiavi_concordi, polarizzazioni,
};
use crate::scrittore::StatoScrittore;
use crate::LUNG_MSG;

verus! {

/// Sessione senza Avversario: lo Scrittore spedisce i suoi `LUNG_MSG` fotoni
/// uno alla volta (`passo_spedizione`), il Lettore legge ciascuno dal canale
/// come lo Scrittore lo ha lasciato (`passo_lettura`), confronta le basi
/// pubblicate (`verifica_polarizzazioni`) e prepara test e chiave
/// (`prepara_test_e_chiave`), e lo Scrittore ricava la chiave grezza dagli
/// esiti (`selezione_chiave_grezza`). Allora le due chiavi grezze coincidono,
/// i bit di test coincidono (il test e' superato) e la chiave simmetrica che
/// lo Scrittore ricava e' quella del Lettore.
///
/// `prima_dell_invio[i]` e' il canale quantistico subito prima che lo
/// Scrittore spedisca il fotone `i`.
pub proof fn lemma_sessione_senza_avversario(
    scrittore: StatoScrittore,
    lettore: StatoLettore,
    prima_dell_invio: Seq<CanaleQuantistico>,
)
    requires
        scrittore.messaggio.len() == LUNG_MSG,
        lettore.messaggio.len() == LUNG_MSG,
        prima_dell_invio.len() == LUNG_MSG,
        forall|i: int|
            0 <= i < LUNG_MSG ==> #[trigger] lettore.messaggio[i].1 == prima_dell_invio[i].dopo_spedizione(
                scrittore.messaggio[i].0,
                scrittore.messaggio[i].1,
            ).con_fotone_in(true).esito_misura(lettore.messaggio[i].0, lettore.messaggio[i].1),
        lettore.esito == esiti(lettore.messaggio, polarizzazioni(scrittore.messaggio)),
        scrittore.chiave_grezza == chiave_grezza(scrittore.messaggio, lettore.esito),
        lettore.chiave_grezza == chiave_grezza(lettore.messaggio, lettore.esito),
        lettore.chiave_simmetrica == chiave_simmetrica(lettore.chiave_grezza),
    ensures
        scrittore.chiave_grezza == lettore.chiave_grezza,
        bit_di_test(scrittore.chiave_grezza) == bit_di_test(lettore.chiave_grezza),
        chiave_simmetrica(scrittore.chiave_grezza) == lettore.chiave_simmetrica,
{
    assert forall|i: int|
        0 <= i < lettore.messaggio.len() && #[trigger] lettore.messaggio[i].0
            == scrittore.messaggio[i].0 implies lettore.messaggio[i].1
        == scrittore.messaggio[i].1 by {
        assert(lettore.messaggio[i].1 == prima_dell_invio[i].dopo_spedizione(
            scrittore.messaggio[i].0,
            scrittore.messaggio[i].1,
        ).con_fotone_in(true).esito_misura(lettore.messaggio[i].0, lettore.messaggio[i].1));
    }
    lemma_chiavi_concordi(scrittore.messaggio, lettore.messaggio);
}

} // verus!
