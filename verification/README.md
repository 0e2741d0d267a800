# graduate-cli

The command line of Graduate: `gd login` connects a Jira site, and `gd restack`
rebuilds an environment branch from the feature branches it should still carry.

The restack planner and its interaction state live in Graduate's engine crate, which
this project does not include. So `gd restack` validates its arguments and parameters,
then reports `engine_unavailable`; the decisions of a rebuild, a resume and a
publication are in the library, verified, but no program here drives them.

- `src/` is the library, verified with Verus. It holds the rules of the tool as
  functions with contracts: session tokens and their integrity envelope, the
  session store's expiry and purge decisions, ref-name and parameter checks, the
  machine JSON documents and errors, the restack review, checklist and
  confirmation screens, the login screens and their key handling, the history
  walks used during inspection, and the checks made at each step of a rebuild and
  a publication. Public proof functions state the laws that hold across calls.
- `app/` is the program around it: argument parsing, configuration files,
  terminal setup, HTTP calls to Jira and repository reads. It hands plain values
  to the library and acts on what it returns.
- `tests/` exercises the library on concrete values.
