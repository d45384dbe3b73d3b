# ruglette

The rules of an on-chain European roulette game, verified with Verus.

- `src/` — the library: the bet types and their odds (`utils`), the payout of
  a bet, and the instructions that move a round from opening to settlement
  (`instructions`), each a function from the accounts' values to their new
  values and the transfer to perform. `odds` proves that every bet wins on as
  many of the 37 numbers as its type covers, so that stake plus winnings
  over the 37 numbers come to 36 stakes. Settlement pays the winnings alone;
  the stake stays in the house vault. `lifecycle` proves that a round's status only moves forward, from
  accepting bets to settled. `randomness` reads a Switchboard randomness account through
  `switchboard-on-demand`.
- `tests/` — tests on concrete rounds.
- `app/` — the Anchor program around the library: accounts, serialisation,
  the clock, and the lamport transfers.
