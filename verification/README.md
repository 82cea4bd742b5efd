# ferrumc

The rules of a Minecraft server, written in Verus and proved against their contracts: resource
locations and the data packs they are read from, tags and how packs merge them, kinds of damage and
what stops them, potion effects and how a stronger one hides a weaker, inventories, advancements and
a player's progress through them, enchantments, and the byte formats that items, components and NBT
travel in.

## Layout

- `src/` is the verified library. Each module states what its functions do over a mathematical
  model (sequences, maps and plain values), and the laws that tie several functions together are
  public proof functions named `lemma_*`.
- `tests/` runs the library on concrete values.
- `app/` is the ordinary Rust around it: reading packs off the disk and out of zip files, the queue
  inventory updates wait in, saving a player's progress, and the parts of the game that are
  arithmetic on fractions (how much of a blow lands, hunger, attribute values, where an
  advancement is drawn), which the verifier does not take.

`serde_json` reads JSON for the library behind a trusted wrapper whose result is named rather than
restated; everything the library does with what it reads is proved.
