# reactor_commands

The command side of the reactor of a tiling window manager: what each command of
the user does to the reactor, and what it asks of the layout engine, the window
server and the other actors.

A handler (`command::CommandEventHandler`) reads a `reactor::Reactor`, writes the
record of workspace switches or the configuration where its command changes them,
and appends to `Reactor::effects` what is to happen outside, in order. The list it
appends is stated exactly, as one of the lists in `plan`, and proved with Verus.
What goes to the log is left to `app/`; for a move to another monitor,
`CommandEventHandler::report_move` says what is moved or why nothing is.

- `geometry`: points and directions
- `screens`: screens, the spaces that they show, searches over them
- `windows`: windows, apps, what the layout engine tells of its workspaces
- `effects`: commands, the configuration, effects
- `reactor`: the reactor
- `plan`: the effects that each command calls for
- `command`: the handlers
- `laws`: what holds over all inputs and across commands
- `app/`: carries out effects on a live window manager
