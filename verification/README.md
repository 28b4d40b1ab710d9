# depool_elect

The decisions of `depool-elect`, a helper that runs a Tycho testnet
validator through a DePool, written in Verus with their contracts proved.

`src/` is the library:

- `tokens`: token amounts as text and as nano units (reading, writing, and
  the proof that a written amount reads back);
- `cli`: the command line;
- `config`: the configuration file, its older form, and the stake target;
- `depool`, `wallet`: what the DePool reports and the log lines built from it;
- `deploy`, `balances`, `assurance`, `election`, `run`: one function per
  decision point of a pass — each takes what was just observed and names
  the next action;
- `laws`: properties that span several decision points;
- `clock`, `digits`, `text`: helpers.

`app/main.rs` is the program: it reads and writes files, talks to the
network through the `minik2` client, performs the actions that the library
names and reports back what it observed.
