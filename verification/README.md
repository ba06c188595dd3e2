# perseus_driver

The decisions behind the `perseus` command line, verified with Verus.

The library in `src/` touches nothing outside itself, but for one question: where
the user's cache directory is. It consists of state machines. Each names the next
thing to do, and takes what came of it:

| module      | decides                                                            |
|-------------|--------------------------------------------------------------------|
| `session`   | a whole run: the clean-up after a failed installation, the exit code |
| `launch`    | whether a command is watched or carried out once, and what follows |
| `dispatch`  | the steps of a command, their order and the exit code              |
| `setup`     | which files are watched and which are excluded                     |
| `supervise` | when the copy of the program is killed, restarted, or stopped      |

Every transition is specified exactly, over a mathematical state. What follows for
whole runs is stated and proved in `setup_run`, `setup_laws`, `dispatch_laws`,
`watch_laws` and `session_laws`. Among other things:

- a setup that ends well watches every file that is not excluded, and nothing else;
- there is never more than one copy of the program that has not yet been told to end,
  and no copy ever watches;
- tools are installed for every command except `new`, `init` and `clean`;
- the first failure, or the first exit code other than zero, ends a command.

The program in `app/` performs the actions. It reads the command line, and does the
actual work, by way of the `perseus_cli` crate.
