# gta_mod_manager

A mod manager for Grand Theft Auto V, split into a verified library and the
desktop application around it.

- `src/` is the library, verified with Verus:
  - `dlclist` decides what `dlclist.xml` lists (the game's own packs first,
    then the mod folders that are not base packs, sorted) and puts that list
    into the document; its laws state that a mod is listed exactly when its
    folder is present, that a sync keeps everything in the document but the
    list, and that syncing twice changes nothing. Those laws are shown over
    the element that is written; the written bytes are tied to that element
    through `xmltree`'s writer, whose output is named but not restated.
  - `install` names the working folders, accepts zip and rar archives, finds
    the mod's folder in an extracted archive and reports progress.
  - `metadata` reads a mod's name, kind and preview from its extracted files.
  - `valid_mods` decides which installed mods are active.
  - `patch_flow` drives extracting, syncing and repacking `dlclist.xml`.
  - `gta_path` builds the game's paths.
  - `text`, `xml`, `pattern` and `digest` hold the text utilities and the
    trusted items for `xmltree`, `regex` and `md5`.
- `app/` is the Tauri application: commands, file and process I/O, progress
  events and the serialisable copies of the library's result types.
- `tests/` runs the library on concrete inputs.
