//! The template assets: fixed file contents for both variants, plus the two
//! assets whose text receives the project name.
//!
//! Assets that mention the project name are kept as constant parts around
//! the insertion points, so their rendered form is stated exactly in specs.

use vstd::prelude::*;

verus! {

/// `vite.config.js` of the default variant.
pub const VITE_CONFIG_JS: &'static str = "import { defineConfig } from 'vite'\nimport react from '@vitejs/plugin-react'\n\n// https://vitejs.dev/config/\nexport default defineConfig({\n  plugins: [react()],\n})\n";

/// `vite.config.ts` of the typescript variant.
pub const VITE_CONFIG_TS: &'static str = "import { defineConfig } from 'vite'\nimport react from '@vitejs/plugin-react'\n\n// https://vitejs.dev/config/\nexport default defineConfig({\n  plugins: [react()],\n})\n";

/// `index.html`, up to the project name in the page title.
pub const INDEX_HTML_HEAD: &'static str = "<!doctype html>\n<html lang=\"en\">\n  <head>\n    <meta charset=\"UTF-8\" />\n    <meta name=\"viewport\" content=\"width=device-width, initial-scale=1.0\" />\n    <title>";

/// `index.html`, after the project name.
pub const INDEX_HTML_TAIL: &'static str = "</title>\n  </head>\n  <body>\n    <div id=\"root\"></div>\n    <script type=\"module\" src=\"/src/main.jsx\"></script>\n  </body>\n</html>\n";

/// `src/main.jsx` of the default variant.
pub const MAIN_JSX: &'static str = "import React from 'react'\nimport ReactDOM from 'react-dom/client'\nimport App from './App.jsx'\nimport './index.css'\n\nReactDOM.createRoot(document.getElementById('root')).render(\n  <React.StrictMode>\n    <App />\n  </React.StrictMode>,\n)\n";

/// `src/App.jsx` of the default variant.
pub const APP_JSX: &'static str = "import { useState } from 'react'\nimport './App.css'\n\nfunction App() {\n  const [count, setCount] = useState(0)\n\n  return (\n    <div className=\"App\">\n      <h1>Vite + React</h1>\n      <div className=\"card\">\n        <button onClick={() => setCount((count) => count + 1)}>\n          count is {count}\n        </button>\n      </div>\n    </div>\n  )\n}\n\nexport default App\n";

/// `src/main.tsx` of the typescript variant.
pub const MAIN_TSX: &'static str = "import React from 'react'\nimport ReactDOM from 'react-dom/client'\nimport App from './App.tsx'\nimport './index.css'\n\nReactDOM.createRoot(document.getElementById('root')!).render(\n  <React.StrictMode>\n    <App />\n  </React.StrictMode>,\n)\n";

/// `src/App.tsx` of the typescript variant.
pub const APP_TSX: &'static str = "import { useState } from 'react'\nimport './App.css'\n\nfunction App() {\n  const [count, setCount] = useState(0)\n\n  return (\n    <div className=\"App\">\n      <h1>Vite + React</h1>\n      <div className=\"card\">\n        <button onClick={() => setCount((count) => count + 1)}>\n          count is {count}\n        </button>\n      </div>\n    </div>\n  )\n}\n\nexport default App\n";

/// `src/vite-env.d.ts` of the typescript variant.
pub const VITE_ENV_DTS: &'static str = "/// <reference types=\"vite/client\" />\n";

/// `src/App.css`, shared by both variants.
pub const APP_CSS: &'static str = ".App {\n  max-width: 1280px;\n  margin: 0 auto;\n  padding: 2rem;\n  text-align: center;\n}\n\n.card {\n  padding: 2em;\n}\n";

/// `src/index.css`, shared by both variants.
pub const INDEX_CSS: &'static str = ":root {\n  font-family: Inter, system-ui, Avenir, Helvetica, Arial, sans-serif;\n  line-height: 1.5;\n  font-weight: 400;\n  color-scheme: light dark;\n}\n\nbody {\n  margin: 0;\n  display: flex;\n  place-items: center;\n  min-width: 320px;\n  min-height: 100vh;\n}\n";

/// `.gitignore`, shared by both variants.
pub const GITIGNORE: &'static str = "# Logs\nlogs\n*.log\nnpm-debug.log*\nyarn-debug.log*\nyarn-error.log*\npnpm-debug.log*\nlerna-debug.log*\n\nnode_modules\ndist\ndist-ssr\n*.local\n\n# Editor directories and files\n.vscode/*\n!.vscode/extensions.json\n.idea\n.DS_Store\n*.suo\n*.ntvs*\n*.njsproj\n*.sln\n*.sw?\n";

/// `tsconfig.json` of the typescript variant.
pub const TSCONFIG_JSON: &'static str = "{\n  \"compilerOptions\": {\n    \"target\": \"ES2020\",\n    \"useDefineForClassFields\": true,\n    \"lib\": [\"ES2020\", \"DOM\", \"DOM.Iterable\"],\n    \"module\": \"ESNext\",\n    \"skipLibCheck\": true,\n    \"moduleResolution\": \"bundler\",\n    \"allowImportingTsExtensions\": true,\n    \"resolveJsonModule\": true,\n    \"isolatedModules\": true,\n    \"noEmit\": true,\n    \"jsx\": \"react-jsx\",\n    \"strict\": true,\n    \"noUnusedLocals\": true,\n    \"noUnusedParameters\": true,\n    \"noFallthroughCasesInSwitch\": true\n  },\n  \"include\": [\"src\"],\n  \"references\": [{ \"path\": \"./tsconfig.node.json\" }]\n}\n";

/// `tsconfig.node.json` of the typescript variant.
pub const TSCONFIG_NODE_JSON: &'static str = "{\n  \"compilerOptions\": {\n    \"composite\": true,\n    \"skipLibCheck\": true,\n    \"module\": \"ESNext\",\n    \"moduleResolution\": \"bundler\",\n    \"allowSyntheticDefaultImports\": true\n  },\n  \"include\": [\"vite.config.ts\"]\n}\n";

/// `README.md`, up to the first mention of the project name.
pub const README_HEAD: &'static str = "# ";

/// `README.md`, between the two mentions of the project name.
pub const README_MID: &'static str = "\n\nA React project scaffolded with oxre.\n\n## Getting started\n\n```sh\nnpm install\nnpm run dev\n```\n\nBuild ";

/// `README.md`, after the second mention of the project name.
pub const README_TAIL: &'static str = " for production with `npm run build`.\n";

/// The full text of `index.html` for a given project name: the name appears
/// once, as the page title.
pub open spec fn spec_index_html(name: Seq<char>) -> Seq<char> {
    INDEX_HTML_HEAD@ + name + INDEX_HTML_TAIL@
}

/// The full text of `README.md` for a given project name: the name appears
/// twice, as the heading and in the closing sentence.
pub open spec fn spec_readme(name: Seq<char>) -> Seq<char> {
    README_HEAD@ + name + README_MID@ + name + README_TAIL@
}

/// Render `index.html` with the project name in place.
pub fn index_html_content(name: &str) -> (r: String)
    ensures
        r@ == spec_index_html(name@),
{
    let mut s = String::from_str(INDEX_HTML_HEAD);
    s.append(name);
    s.append(INDEX_HTML_TAIL);
    s
}

/// Render `README.md` with the project name in place.
pub fn readme_content(name: &str) -> (r: String)
    ensures
        r@ == spec_readme(name@),
{
    let mut s = String::from_str(README_HEAD);
    s.append(name);
    s.append(README_MID);
    s.append(name);
    s.append(README_TAIL);
    s
}

} // verus!
