# displaycontrold

Sets and reads the settings of large-format displays (currently iiyama
displays) over an RS-232 line or a TCP connection.

- `src/` is the verified library: the request frames of the iiyama
  protocol and their checksum, the typed settings and the commands that
  carry them, the clipping of levels to their range, the queue of
  requested settings, the serial and TCP parameters, and the messages
  reported to the user. Contracts and laws are checked by Verus.
- `app/` is the command-line program: it reads the JSON configuration,
  decodes setting values with serde, opens the connections, sends the
  frames, and runs one thread per display.
- `tests/` exercises the library on concrete values.
