# exchange

The rules of *Exchange*, a trading game for 2 to 6 players over five rounds
and a closing "Market Close" stage, as a verified library, with a terminal
program around it.

Each round has three phases: every player picks a security (bank, bond or
insurance) and orders to buy or sell a quantity of it; then every player, and
once more the lobbyist (the player with the most cash), moves the influence on
one security by one. A market force card then acts on the influences, the
prices move by ten per unit of influence (a bubble pops below 10 or above 90),
and the orders are carried out.

- `src/data_types.rs`: the round, the market state, the players and the cards,
  and how they are shown.
- `src/phases.rs`: the answers of the three phases, judged and recorded.
- `src/market.rs`: closing a round: the card, the prices, the trades, the next
  round.
- `src/setup.rs`: the roster of characters, the deck, and dealing a new game.
- `src/results.rs`: net worth and the final places.
- `src/text.rs`: decimal text and text comparison.
- `src/laws.rs`: properties that span the functions above.
- `app/main.rs`: the terminal game: prompts, hidden answers, printing.
