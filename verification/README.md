# ds_controller

Receiver-side logic of a bridge that turns a Nintendo DS into a PC gamepad:
the DS sends 16-byte controller-state packets over UDP, and the PC maps them
onto a virtual Xbox 360 pad (ViGEm on Windows, uinput on Linux).

- `src/` is the verified library (Verus): the packet format
  (`protocol`), the DS-to-Xbox mapping (`mapping`), button names (`labels`),
  the receiver's packet and timeout filter (`receiver`), Linux key events
  (`linux_pad`), the controller backend interface (`backend`), settings
  rules (`settings`), the dashboard's status and the receiver lifecycle
  (`runtime`, `dto`, `log_event`) and the update session state machine
  (`updater`).
- `app/` is the program around it: the command-line receiver, the UDP
  socket, the uinput and ViGEm devices, the settings file, and the Tauri
  desktop shell.
- `tests/` runs the library on concrete values.
