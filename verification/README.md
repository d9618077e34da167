# inferrs

Local models: finding those that Ollama keeps, mapping them to the HuggingFace models
they were made of, and naming the tensors of their GGUF files.

- `src/` is the library, verified with Verus. It reads no disk and opens no connection:
  it is handed what was read, and says what to do next.
- `app/` is the program around it: it reads Ollama's store and the caches, downloads
  metadata, and serves tensors to model code.
- `tests/` runs the library on concrete values.

The map from Ollama models to HuggingFace models, `ollama_map.json`, is installed beside
the program. A user's own map at `~/.config/inferrs/ollama-map.json` goes first.
