# cosmic-share-browser

A COSMIC panel applet that shares a directory over WebDAV on the local
network and browses the WebDAV shares of other machines, with the logic
verified by Verus.

- `src/` is the verified library: the configuration and its files
  (`config`), firewall detection and commands (`firewall`), reading the
  outputs of `avahi-browse`, `ip` and `gio` (`discovery`), the daemon's
  decisions (`daemon`), the applet's state machine (`applet`) and the
  content of its popup (`popup`), on top of verified text handling (`text`).
- `app/` holds the programs around it: the daemon (WebDAV server, Avahi
  advertisement, configuration polling), the panel applet (drawing, running
  commands) and the file and environment access both need. One binary runs
  the daemon when invoked as `cosmic-share-daemon` or with `--daemon`, and the
  applet otherwise.
- `tests/` exercises the library on concrete values.
