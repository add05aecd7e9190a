# zaprett

The parameter model of the nfqws packet processor and the decision logic of
the zaprett service, written in Verus with machine-checked contracts.

- `src/` is the verified library:
  - `params`, `flags`, `bind`, `config`: nfqws parameter values, flag sets,
    the socket binding and the parameter set with their builders (required
    values, defaults, the IPv6 auto-TTL fallback) and the fixed-size binding
    buffers for the C side;
  - `ip`, `cstr`, `text`: address text, C byte buffers, whitespace splitting;
  - `pattern`: regular expressions (the `regex` crate) tied to their pattern
    text;
  - `service`: list selection, strategy completion, nfqws arguments and the
    one-instance launcher, status, and the iptables queue rules.
- `tests/` exercises the library on concrete values.
- `app/` is the command-line tool: files, iptables, sysctl, processes,
  daemonizing and the call into nfqws.
