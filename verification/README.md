# autopilot

Controllers that drive a simulated car over a TCP connection. The car sends
lines such as `speed 12.5`, `speedlimit 50 120 30` or `trafficlight 40 Red 3`,
and `update` when it wants a command; the controller answers with
`throttle <t>\nbrake <b>\n`.

- `src/` is the verified library: gathering bytes into lines (`reader`),
  splitting lines into fields (`fields`), the command text (`command`),
  traffic light states (`traffic`), and the decisions of the four controllers
  (`level1`, `level2`, `level4`, `level5`).
- `app/` holds the network clients, and the floating-point readings and
  comparisons, which the library does not hold.
