# mltd

Tools for the assets of THE IDOLM@STER Million Live! Theater Days: its
asset server's manifests, and the Unity asset bundles they list.

- `src/` is the verified library: Unity version parsing and ordering, the
  readers of the serialized object classes (`Texture2D`, `Sprite`, `Mesh`
  parts, `TextAsset`, `AssetBundle`), texture decoding, the sprite-sheet
  puzzles, text-asset decryption, manifests and their differences, and the
  URLs and names the tools use.
- `app/` is the `mltd` command line: argument handling, file and network
  I/O, bundle unpacking and image writing.
- `tests/` exercises the library on concrete values.
