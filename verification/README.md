# foundry

Fast, simple, and predictable local development environments: a project file
(`foundry.yaml`) names services, and the tool runs each as a Docker container.

- `src/` is the verified library (Verus). It holds what the tool decides:
  - `config`: the project file's services and their normalisation into images,
    versions, environments and mount points;
  - `docker`: resource names, labels and the generated web server configuration;
  - `up`: which services start in which order, what to do about an existing
    container, and what each new container is created with;
  - `up_steps`: the work `up` does for one service as a state machine, from
    inspecting its container to starting it; the program performs each action
    against Docker and feeds back the answer;
  - `listing`: how containers are named in reports, which ones `down` acts on,
    and the layout of the status table;
  - `string_map`, `text`, `error`, `cli`: the supporting types and text helpers;
  - `laws`: properties that hold across these functions.
- `app/` is the command-line program: argument parsing (clap), reading and
  writing the project file (serde_yaml) and the calls to the Docker daemon (bollard).
- `tests/` runs the library on concrete inputs.

## The project's host directory

Services with a root (a path inside their container, such as `/var/www/html`
for php) get a host directory mounted there. That directory is the top-level
`root` key of `foundry.yaml`, resolved against the working directory when it is
relative, and the working directory itself when the key is absent. `root` is
read as a project setting, not as a service.
