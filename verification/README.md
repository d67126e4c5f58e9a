# servoshell

The decisions behind a browser shell, verified with Verus.

| Module | What it decides |
| --- | --- |
| `models` | which load configuration an identifier finds |
| `storage` | where weights and the chosen model are kept |
| `conversation` | the plain data of on-device chat |
| `inference` | picking, loading, downloading and deleting models; sending messages |
| `laws` | what holds of a chat session in every history |
| `settings` | what the Settings window shows |
| `menu` | where the Settings menu item goes, and who handles its click |
| `ios` | which call an embedding view controller makes on the browser |
| `text` | helpers on text |

`app/` performs what the library decides: it runs the inference thread, draws the
window, and holds the C entry points. The engine, the menu and the shared container are
macOS only.
