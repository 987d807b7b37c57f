# localtcp

The installer of the Local TCP native-messaging host: it installs the Node.js host
(`index.js`), finds or fetches a Node.js to run it, and registers the host with
Chromium-family browsers; its uninstaller removes all of it and checks that nothing was
left behind.

The decisions are a library verified with Verus (`src/`); the program around it (`app/`)
runs processes, touches the file system and the Windows registry, and hands the library
what it observed.

- `install`, `uninstall`: a whole install and uninstall, as step functions from state and
  event to the next state and action.
- `provision`: installing Node.js with winget, Homebrew, or from nodejs.org's tarball
  (checked against the published SHA-256), also as step functions.
- `nodes`: the places Node.js is looked for, and the choice among them.
- `host`: the installed `index.js`, the Windows launcher and the manifest, and reading
  the Node.js path back out of them.
- `report`: the transcript, the problems an uninstall meets, the post-install and
  post-removal checks.
- `paths`, `registry`, `json`, `cli`, `platform`, `text`: paths and registry keys,
  `reg query` output and `%VAR%` expansion, the little JSON the installer needs, the
  command line, and character-sequence primitives.

The host's `index.js` and manifest template are embedded into the program from the
project's `host/` directory.
