# uta_studio_desktop

The presentation logic of the Uta! Studio desktop shell, verified with Verus.

`src/` holds what the shell decides and computes, each function with a
contract over mathematical models (`Seq`, `Set`, `int`) and the laws that
relate them:

- `ui_api` – the registry of UI command ids, their access classes, the
  structured requests built from typed commands and the audit of new buttons;
  `registry_ids` proves that no registered id occurs twice.
- `invalidation`, `hierarchy`, `overlays` – scoped UI invalidation, the
  rebuild plan, the entity count of the UI hierarchy and the drawing order
  of the overlay region.
- `library` – the filters of a library listing, paging and the selected
  song.
- `settings`, `model_settings`, `storage` – the settings pages: select
  controls, runtime routing rows, the Fusion Agent group, model downloads,
  storage usage and setup wording.
- `song_detail`, `song_workspace`, `language_editor`, `lyrics_workbench` –
  the song page: overview rows, section cards, hero header, confirmation
  dialogs, the language dialog and the lyrics workbench.
- `jobs`, `logging` – background jobs as state machines (runtime setup,
  snapshots, renders, waveforms, debug-log export) and log filtering.
- `authoring`, `startup`, `text` – key shifting and LRC timestamps, start-up
  options (window plan, developer navigation), and the text building blocks
  the rest is written with.

`app/` is the program around the library: logging set-up, the developer
launch options read from the environment, the JSON shape of the interaction
registry, and the values measured with fractions (layout extents, shares,
tempos), which stay outside the verified code.

`tests/` exercises the library on concrete values.
