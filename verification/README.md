# bb84

Simulazione concorrente del protocollo BB84 di distribuzione quantistica delle
chiavi, con la logica del protocollo verificata in Verus.

- `src/` e' la libreria verificata: i due canali (`canale_quantistico`,
  `canale_pubblico`), le tre parti (`scrittore`, `lettore`, `avversario`), le
  regole comuni di chiave grezza, bit di test e chiave simmetrica
  (`protocollo`), il riepilogo finale (`riepilogo`) e le estrazioni casuali
  (`casuale`).
- `app/` esegue la simulazione: un thread per parte, i canali condivisi sotto
  `parking_lot::Mutex`, le attese sui flag e le stampe delle tabelle.

Parametri in `src/lib.rs`: `LUNG_MSG = 64` (8 byte, 64 fotoni) e
`ATTIVA_AVVERSARIO = false` (`true` per attivare l'Avversario).
