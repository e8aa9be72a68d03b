# gargamel

A forensic acquisition tool for remote computers: it gathers quick evidence
(network state, firewall, users, processes), event logs, registry hives,
memory images and chosen files from Windows machines over PsExec, PowerShell
remoting, WMI or RDP, and from Linux machines over SSH.

The decisions of the tool are a library whose behaviour is stated in
contracts and proved with Verus:

- `src/` — the verified library. Each connector (`remote/`) states, as spec
  functions, the exact command line it builds for a command, a copy or a
  deletion; the acquirers plan the processes of each kind of evidence; the
  command-file reader, the KAPE configuration parser, the path matching of
  the file lister, the selection of methods and stages from the options, and
  the part-by-part download of split archives are all proved against their
  specifications. Public `law_*` proof functions state properties that hold
  across functions (comments skipped, selectors honoured, report names safe
  for file names, downloads that stop after two empty fetches, ...).
- `app/` — the program around the library: command-line parsing, logging,
  prompting for credentials, starting the planned processes, reading and
  writing files, and JSON conversion of KAPE targets. Started under the name
  `path_retriever`, it lists the local files that converted KAPE targets
  select.
- `tests/` — tests of the library on concrete inputs.
