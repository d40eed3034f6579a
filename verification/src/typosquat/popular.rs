//! The bundled reference data: JSON arrays of widely used package names, a
//! hand-curated representative snapshot of each registry rather than a
//! live-fetched ranking.

use vstd::prelude::*;

verus! {

/// Popular npm package names, as a JSON array of strings.
pub const NPM_TOP_PACKAGES_JSON: &'static str = r#"[
  "react",
  "react-dom",
  "lodash",
  "express",
  "axios",
  "chalk",
  "commander",
  "moment",
  "request",
  "debug",
  "async",
  "bluebird",
  "underscore",
  "uuid",
  "classnames",
  "prop-types",
  "vue",
  "webpack",
  "typescript",
  "babel-core",
  "@babel/core",
  "@babel/preset-env",
  "@babel/runtime",
  "core-js",
  "jquery",
  "yargs",
  "fs-extra",
  "glob",
  "mkdirp",
  "rimraf",
  "semver",
  "minimist",
  "body-parser",
  "dotenv",
  "cors",
  "mongoose",
  "socket.io",
  "redux",
  "react-redux",
  "react-router",
  "react-router-dom",
  "next",
  "eslint",
  "prettier",
  "jest",
  "mocha",
  "chai",
  "sinon",
  "nodemon",
  "rxjs",
  "@angular/core",
  "@angular/common",
  "zone.js",
  "tslib",
  "rollup",
  "gulp",
  "grunt",
  "browserify",
  "ws",
  "node-fetch",
  "cheerio",
  "colors",
  "inquirer",
  "ora",
  "ejs",
  "pug",
  "handlebars",
  "marked",
  "dayjs",
  "date-fns",
  "luxon",
  "ramda",
  "immutable",
  "styled-components",
  "@emotion/react",
  "tailwindcss",
  "postcss",
  "autoprefixer",
  "sass",
  "less",
  "webpack-cli",
  "webpack-dev-server",
  "babel-loader",
  "css-loader",
  "style-loader",
  "file-loader",
  "url-loader",
  "html-webpack-plugin",
  "mini-css-extract-plugin",
  "terser",
  "uglify-js",
  "esbuild",
  "vite",
  "@vitejs/plugin-react",
  "eslint-plugin-react",
  "eslint-plugin-import",
  "@typescript-eslint/parser",
  "@typescript-eslint/eslint-plugin",
  "ts-node",
  "@types/node",
  "@types/react",
  "@types/jest",
  "graphql",
  "apollo-server",
  "@apollo/client",
  "knex",
  "sequelize",
  "pg",
  "mysql",
  "mysql2",
  "redis",
  "ioredis",
  "mongodb",
  "sqlite3",
  "jsonwebtoken",
  "bcrypt",
  "bcryptjs",
  "passport",
  "helmet",
  "morgan",
  "winston",
  "pino",
  "cookie-parser",
  "express-session",
  "multer",
  "nodemailer",
  "validator",
  "joi",
  "yup",
  "zod",
  "ajv",
  "qs",
  "query-string",
  "path-to-regexp",
  "mime",
  "mime-types",
  "send",
  "serve-static",
  "http-proxy",
  "http-errors",
  "finalhandler",
  "on-finished",
  "cross-env",
  "concurrently",
  "npm-run-all",
  "husky",
  "lint-staged",
  "shelljs",
  "execa",
  "cross-spawn",
  "which",
  "chokidar",
  "minimatch",
  "micromatch",
  "picomatch",
  "fast-glob",
  "globby",
  "del",
  "archiver",
  "tar",
  "adm-zip",
  "jszip",
  "xml2js",
  "js-yaml",
  "yaml",
  "toml",
  "ini",
  "iconv-lite",
  "safe-buffer",
  "buffer",
  "events",
  "util",
  "process",
  "readable-stream",
  "through2",
  "pump",
  "once",
  "inherits",
  "graceful-fs",
  "source-map",
  "source-map-support",
  "esprima",
  "acorn",
  "estraverse",
  "escodegen",
  "@babel/parser",
  "@babel/traverse",
  "@babel/types",
  "@babel/generator",
  "regenerator-runtime",
  "lodash.merge",
  "lodash.debounce",
  "lodash.clonedeep",
  "deepmerge",
  "object-assign",
  "extend",
  "clone",
  "fast-deep-equal",
  "deep-equal",
  "ms",
  "escape-string-regexp",
  "strip-ansi",
  "ansi-styles",
  "supports-color",
  "has-flag",
  "kleur",
  "picocolors",
  "figlet",
  "boxen",
  "cli-table3",
  "progress",
  "listr",
  "enquirer",
  "prompts",
  "meow",
  "config",
  "convict",
  "nconf",
  "rc",
  "nanoid",
  "shortid",
  "crypto-js",
  "node-forge",
  "md5",
  "bn.js",
  "big.js",
  "decimal.js",
  "bignumber.js",
  "numeral",
  "d3",
  "chart.js",
  "three",
  "leaflet",
  "socket.io-client",
  "engine.io",
  "sockjs",
  "puppeteer",
  "playwright",
  "selenium-webdriver",
  "cypress",
  "karma",
  "jasmine",
  "ava",
  "tap",
  "supertest",
  "nock",
  "@faker-js/faker",
  "msw",
  "@storybook/react",
  "react-scripts",
  "vue-router",
  "vuex",
  "pinia",
  "nuxt",
  "svelte",
  "@sveltejs/kit",
  "backbone",
  "knockout",
  "preact",
  "solid-js",
  "lit",
  "electron",
  "electron-builder",
  "react-native",
  "expo",
  "firebase",
  "firebase-admin",
  "aws-sdk",
  "@aws-sdk/client-s3",
  "googleapis",
  "stripe",
  "twilio",
  "sharp",
  "jimp",
  "canvas",
  "pdfkit",
  "exceljs",
  "xlsx",
  "papaparse",
  "csv-parser",
  "fast-csv",
  "json5",
  "lru-cache",
  "node-cache",
  "keyv",
  "p-limit",
  "p-queue",
  "async-retry",
  "retry",
  "got",
  "superagent",
  "needle",
  "follow-redirects",
  "form-data",
  "formidable",
  "busboy",
  "compression",
  "serve",
  "http-server",
  "live-server",
  "browser-sync",
  "pm2",
  "forever",
  "@nestjs/core",
  "@nestjs/common",
  "koa",
  "koa-router",
  "@hapi/hapi",
  "fastify",
  "restify"
]"#;

/// Popular PyPI package names, as a JSON array of strings.
pub const PYPI_TOP_PACKAGES_JSON: &'static str = r#"[
  "requests",
  "numpy",
  "pandas",
  "boto3",
  "botocore",
  "urllib3",
  "setuptools",
  "six",
  "python-dateutil",
  "certifi",
  "idna",
  "charset-normalizer",
  "pip",
  "wheel",
  "pyyaml",
  "s3transfer",
  "typing-extensions",
  "cryptography",
  "awscli",
  "jmespath",
  "pyasn1",
  "rsa",
  "google-api-core",
  "protobuf",
  "attrs",
  "packaging",
  "pytz",
  "click",
  "jinja2",
  "markupsafe",
  "werkzeug",
  "flask",
  "django",
  "fastapi",
  "uvicorn",
  "starlette",
  "pydantic",
  "sqlalchemy",
  "psycopg2",
  "psycopg2-binary",
  "pymysql",
  "redis",
  "celery",
  "kombu",
  "billiard",
  "amqp",
  "vine",
  "gunicorn",
  "scipy",
  "matplotlib",
  "seaborn",
  "scikit-learn",
  "tensorflow",
  "keras",
  "torch",
  "torchvision",
  "transformers",
  "tokenizers",
  "huggingface-hub",
  "tqdm",
  "pillow",
  "opencv-python",
  "lxml",
  "beautifulsoup4",
  "soupsieve",
  "html5lib",
  "selenium",
  "scrapy",
  "pytest",
  "pytest-cov",
  "coverage",
  "mock",
  "tox",
  "nose",
  "hypothesis",
  "black",
  "flake8",
  "pylint",
  "mypy",
  "isort",
  "autopep8",
  "yapf",
  "pycodestyle",
  "pyflakes",
  "mccabe",
  "docutils",
  "sphinx",
  "pygments",
  "colorama",
  "termcolor",
  "rich",
  "tabulate",
  "prettytable",
  "pyparsing",
  "decorator",
  "wrapt",
  "cffi",
  "pycparser",
  "greenlet",
  "gevent",
  "eventlet",
  "aiohttp",
  "multidict",
  "yarl",
  "async-timeout",
  "frozenlist",
  "aiosignal",
  "httpx",
  "httpcore",
  "h11",
  "anyio",
  "sniffio",
  "websockets",
  "websocket-client",
  "paramiko",
  "bcrypt",
  "pynacl",
  "pyjwt",
  "oauthlib",
  "requests-oauthlib",
  "google-auth",
  "cachetools",
  "pyasn1-modules",
  "grpcio",
  "grpcio-tools",
  "googleapis-common-protos",
  "azure-core",
  "azure-storage-blob",
  "msrest",
  "kubernetes",
  "docker",
  "ansible",
  "fabric",
  "invoke",
  "s3fs",
  "fsspec",
  "pyarrow",
  "dask",
  "numba",
  "llvmlite",
  "sympy",
  "networkx",
  "statsmodels",
  "patsy",
  "xgboost",
  "lightgbm",
  "catboost",
  "plotly",
  "bokeh",
  "dash",
  "streamlit",
  "jupyter",
  "notebook",
  "ipython",
  "ipykernel",
  "jupyterlab",
  "nbformat",
  "nbconvert",
  "traitlets",
  "tornado",
  "pyzmq",
  "jedi",
  "parso",
  "prompt-toolkit",
  "wcwidth",
  "pexpect",
  "ptyprocess",
  "psutil",
  "python-dotenv",
  "simplejson",
  "ujson",
  "orjson",
  "msgpack",
  "toml",
  "tomli",
  "tomlkit",
  "filelock",
  "platformdirs",
  "virtualenv",
  "distlib",
  "importlib-metadata",
  "zipp",
  "more-itertools",
  "regex",
  "chardet",
  "future",
  "pyopenssl",
  "itsdangerous",
  "marshmallow",
  "alembic",
  "mako",
  "babel",
  "openpyxl",
  "xlrd",
  "xlsxwriter",
  "pymongo",
  "elasticsearch",
  "nltk",
  "spacy",
  "gensim",
  "joblib",
  "threadpoolctl",
  "cloudpickle",
  "pyspark",
  "py4j",
  "arrow",
  "pendulum",
  "python-slugify",
  "faker",
  "factory-boy",
  "freezegun",
  "responses",
  "requests-mock",
  "pyserial",
  "paho-mqtt",
  "twisted",
  "zope.interface",
  "pyinstaller",
  "cython",
  "pybind11",
  "cmake",
  "ninja",
  "poetry",
  "pipenv",
  "setuptools-scm",
  "twine",
  "keyring",
  "jsonschema",
  "pyrsistent",
  "rfc3986",
  "validators",
  "email-validator",
  "dnspython",
  "netaddr",
  "shapely",
  "geopandas",
  "pyproj",
  "types-requests",
  "mypy-extensions",
  "astroid",
  "toolz",
  "sortedcontainers",
  "pycryptodome",
  "passlib",
  "argon2-cffi",
  "uvloop",
  "loguru",
  "structlog",
  "sentry-sdk",
  "prometheus-client",
  "pyodbc",
  "google-cloud-storage",
  "google-cloud-bigquery",
  "openai",
  "langchain",
  "tiktoken",
  "sentencepiece",
  "accelerate",
  "datasets",
  "safetensors",
  "onnx",
  "onnxruntime",
  "jax",
  "flax",
  "optax",
  "mlflow",
  "wandb",
  "optuna",
  "ray",
  "shap"
]"#;

} // verus!
