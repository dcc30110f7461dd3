# slimjelly

A slim desktop client for Jellyfin servers: browsing, server management and
playback in an external player (mpv or VLC), with Jellyseerr requests and
OpenSubtitles downloads.

The client's logic is a library whose behaviour is specified with
`requires`/`ensures` contracts and proved with Verus:

- `config`, `error` — settings with their defaults, and the error type.
- `net`, `urls`, `jellyfin`, `seerr`, `subtitles` — server addresses, the
  requests each service is sent, and the models of their replies.
- `secure_store` — the sealed session file (Argon2id machine key,
  XChaCha20-Poly1305, base64); a sealed session opens to what was sealed.
- `playback` — choosing a player, streaming plans, the transcoding
  fallback, progress reporting.
- `mpv` — mpv's JSON IPC: the property request and the reading of its reply.
- `browse`, `episodes`, `home`, `lists`, `accounts`, `status` — what the
  screens show and how the window's state follows the server's replies:
  episode order, season navigation, the hero strip, shuffle, list upkeep,
  logins and status lines.
- `window` — the client window's state as a state machine: each report
  of background work (and each user step) moves the state and returns the
  work that follows (loads, player launches, file removals, the stop
  report), which the program performs.
- `thumbnails` — fetched posters decoded to pixels with the `image` crate.
- `backend` — choosing the Linux windowing backend.

`app/` is the program around the library: the egui window, the HTTP calls,
the external player processes, and the configuration and session files. It
holds a `window::ClientState`, hands it what background work reports, and
performs the effects it returns.
