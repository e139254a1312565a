# solami_sniffer

A terminal sniffer for PumpFun token launches and trades on Solana: it shows every launch
and trade as it happens and buys or sells the selected token from the keyboard.

The library under `src/` is verified with Verus. It holds the logic:

- `pubkey`, `instruction`, `pumpfun`: addresses, program-derived accounts and the `buy` /
  `sell` instructions;
- `codec`, `events`, `metadata`, `decimal`: the byte layouts read from the chain (program
  events in transaction logs, bonding-curve and metadata accounts, token amounts);
- `curve`, `trader`, `send_transaction`: bonding-curve pricing, slippage, the instruction
  list of a trade, landing tips and confirmation polling;
- `keyed`, `position`: the open positions and how they are saved and loaded;
- `app`, `ui`: the state of the interface and the texts it shows.

`app/` is the program around it: configuration, the gRPC feed, RPC requests, the QUIC
sender, the positions file and the terminal drawing.

Controls: `P` pause, `B`/Enter buy, `S` sell, `R` refresh, Tab switch panel, `j`/`k` or
arrows navigate, `Q` quit.
