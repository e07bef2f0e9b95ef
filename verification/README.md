# puppetbots

Control software of a pneumatic telepuppet: a Raspberry Pi drives solenoid
valves (DC motor bonnet), servo-turned flow valves and an orientation plate
(servo bonnet), reads pressure sensors, and takes commands from controllers
over a websocket.

- `src/` is the verified library:
  - `actuator` — the actuator state machine (request queue, flow changes,
    timers, the pressure limit) and its pressure reports;
  - `puppet` — decoding of the messages passed to the puppet;
  - `server` — the controller registry and message handling of the
    websocket server, and the routing of the puppet's reports;
  - `show` — the same for the virtual show server, with its puppets;
  - `ytchat` — polling of a YouTube live chat;
  - `orientation`, `rpi`, `hardware`, `rig`, `config`, `soft_error`, `text`.
- `app/` is the program around it: configuration files, threads, websocket
  and HTTP I/O, and the I2C hardware drivers.
